use vstd::prelude::*;

use flume::Sender;

use crate::action::{MessageHandlerAction, MessageHandlerActionView};
use crate::channel::{action_log, action_receivers};
use crate::db::{HandlerDatabase, HandlerDatabaseView};
use crate::laws::config::same_config;
use crate::recognition::{SpeechRecognitionResponse, SpeechRecognitionSink};
use crate::shutdown::{Shutdown, ShutdownState};
use crate::synthesis::{SpeechSynthesisResponse, SpeechSynthesisSink};
use crate::ws::WsNotification;

verus! {

/// The same handlers are registered, and all but one are as they were.
pub open spec fn same_but_for(
    before: HandlerDatabaseView,
    after: HandlerDatabaseView,
    id: u128,
) -> bool {
    &&& forall|other: u128|
        other != id ==> (#[trigger] after.handlers.contains_key(other)
            <==> before.handlers.contains_key(other))
    &&& forall|other: u128|
        other != id && before.handlers.contains_key(other) ==> (#[trigger] after.handlers[other])
            == before.handlers[other]
}

/// Neither a transcription nor a notification was added or received.
pub open spec fn same_queues(before: HandlerDatabaseView, after: HandlerDatabaseView) -> bool {
    after.transcriptions == before.transcriptions && after.notifications == before.notifications
}

/// No handler was added, removed or sent anything.
pub open spec fn same_handlers(before: HandlerDatabaseView, after: HandlerDatabaseView) -> bool {
    &&& forall|id: u128| #[trigger]
        after.handlers.contains_key(id) <==> before.handlers.contains_key(id)
    &&& forall|id: u128|
        before.handlers.contains_key(id) ==> (#[trigger] after.handlers[id]) == before.handlers[id]
}

/// Exactly one thing has happened: this action was sent to this handler, if it is registered.
pub open spec fn only_sent(
    before: HandlerDatabaseView,
    after: HandlerDatabaseView,
    id: u128,
    action: MessageHandlerActionView,
) -> bool {
    &&& same_queues(before, after)
    &&& same_but_for(before, after, id)
    &&& after.handlers.contains_key(id) <==> before.handlers.contains_key(id)
    &&& before.handlers.contains_key(id) ==> {
        &&& after.handlers[id].receivers == before.handlers[id].receivers
        &&& after.handlers[id].sent.len() == before.handlers[id].sent.len() + 1
        &&& after.handlers[id].sent.drop_last() == before.handlers[id].sent
        &&& after.handlers[id].sent.last().0 == action
    }
}

/// What an offer to a mailbox says of the database.
pub proof fn lemma_only_sent(
    before: HandlerDatabaseView,
    after: HandlerDatabaseView,
    id: u128,
    action: MessageHandlerActionView,
)
    requires
        before.offered(id, action, after),
    ensures
        only_sent(before, after, id, action),
{
    if before.handlers.contains_key(id) {
        assert(after.handlers[id].sent.drop_last() =~= before.handlers[id].sent);
    }
}

/// Do two actions say the same?
pub open spec fn same_action(action: MessageHandlerAction, other: MessageHandlerAction) -> bool {
    match (action, other) {
        (MessageHandlerAction::Hangup, MessageHandlerAction::Hangup) => true,
        (MessageHandlerAction::Play(audio), MessageHandlerAction::Play(other)) => audio@ == other@,
        (
            MessageHandlerAction::RecognitionConfig(config),
            MessageHandlerAction::RecognitionConfig(other),
        ) => same_config(config, other),
        _ => false,
    }
}

/// Two actions say the same exactly if their views are equal, and the view of an action says which one
/// it is, with its audio or its config.
pub proof fn view_tells_actions_apart(action: MessageHandlerAction, other: MessageHandlerAction)
    ensures
        action@ == other@ <==> same_action(action, other),
        match action {
            MessageHandlerAction::Hangup => action@ == MessageHandlerActionView::Hangup,
            MessageHandlerAction::Play(audio) => action@ == MessageHandlerActionView::Play(audio@),
            MessageHandlerAction::RecognitionConfig(config) => {
                &&& action@ matches MessageHandlerActionView::RecognitionConfig(view)
                &&& view.language == config.language@
                &&& view.profanity_filter == config.profanity_filter
                &&& view.punctuation == config.punctuation
            },
        },
{
}

/// A new database holds nothing.
pub proof fn new_database_is_empty(database: HandlerDatabase, empty: bool)
    requires
        call_ensures(<HandlerDatabase as Default>::default, (), database),
        call_ensures(HandlerDatabase::is_empty, (&database,), empty),
    ensures
        empty,
        forall|id: u128| !(#[trigger] database@.handlers.contains_key(id)),
        database@.transcriptions.len() == 0,
        database@.notifications.len() == 0,
{
}

/// A handler that is added is registered with the channel of its sender, in place of any other under
/// its identifier. Nothing else changes.
pub proof fn added_handler_is_registered(
    database: &mut HandlerDatabase,
    id: u128,
    sender: Sender<MessageHandlerAction>,
)
    requires
        call_ensures(HandlerDatabase::add_handler, (database, id, sender), ()),
    ensures
        final(database)@.handlers.contains_key(id),
        final(database)@.handlers[id].receivers == action_receivers(sender),
        final(database)@.handlers[id].sent.len() == action_log(sender).len(),
        forall|i: int|
            0 <= i < action_log(sender).len() ==> (#[trigger] final(database)@.handlers[id].sent[i])
                == (action_log(sender)[i].0@, action_log(sender)[i].1),
        same_but_for(old(database)@, final(database)@, id),
        same_queues(old(database)@, final(database)@),
{
}

/// A handler that is removed is not registered any more. Nothing else changes.
pub proof fn removed_handler_is_not_registered(database: &mut HandlerDatabase, id: u128)
    requires
        call_ensures(HandlerDatabase::remove_handler, (database, id), ()),
    ensures
        !final(database)@.handlers.contains_key(id),
        same_but_for(old(database)@, final(database)@, id),
        same_queues(old(database)@, final(database)@),
{
}

/// A database is empty, and a shutdown over, exactly if no handler is registered.
pub proof fn shutdown_is_over_without_handlers(
    database: &HandlerDatabase,
    empty: bool,
    shutdown: Shutdown<'_>,
    state: ShutdownState,
)
    requires
        call_ensures(HandlerDatabase::is_empty, (database,), empty),
        call_ensures(<Shutdown<'_> as From<&HandlerDatabase>>::from, (database,), shutdown),
        call_ensures(Shutdown::poll, (&shutdown,), state),
    ensures
        empty <==> forall|id: u128| !(#[trigger] database@.handlers.contains_key(id)),
        state == ShutdownState::Ready <==> forall|id: u128|
            !(#[trigger] database@.handlers.contains_key(id)),
        state == ShutdownState::Pending <==> exists|id: u128| #[trigger]
            database@.handlers.contains_key(id),
{
    if forall|id: u128| !(#[trigger] database@.handlers.contains_key(id)) {
        assert(database@.handlers =~= Map::empty());
    }
}

/// A transcription that is added waits behind all others, under its call. Nothing else changes.
pub proof fn added_transcription_waits(database: &mut HandlerDatabase, id: u128, text: String)
    requires
        call_ensures(HandlerDatabase::add_transcription, (database, id, text), ()),
    ensures
        final(database)@.transcriptions.len() == old(database)@.transcriptions.len() + 1,
        final(database)@.transcriptions.drop_last() == old(database)@.transcriptions,
        final(database)@.transcriptions.last() == (id, text@),
        final(database)@.notifications == old(database)@.notifications,
        same_handlers(old(database)@, final(database)@),
{
    assert(final(database)@.transcriptions.drop_last() =~= old(database)@.transcriptions);
}

/// A notification that is added waits behind all others. Nothing else changes.
pub proof fn added_notification_waits(database: &mut HandlerDatabase, notification: WsNotification)
    requires
        call_ensures(HandlerDatabase::add_notification, (database, notification), ()),
    ensures
        final(database)@.notifications.len() == old(database)@.notifications.len() + 1,
        final(database)@.notifications.drop_last() == old(database)@.notifications,
        final(database)@.notifications.last() == notification,
        final(database)@.transcriptions == old(database)@.transcriptions,
        same_handlers(old(database)@, final(database)@),
{
    assert(final(database)@.notifications.drop_last() =~= old(database)@.notifications);
}

/// The transcription that has waited longest is received, if any waits; the others wait on.
pub proof fn oldest_transcription_is_received(
    database: &mut HandlerDatabase,
    received: Option<(u128, String)>,
)
    requires
        call_ensures(HandlerDatabase::recv_transcription, (database,), received),
    ensures
        received is Some <==> old(database)@.transcriptions.len() > 0,
        received matches Some((id, text)) ==> {
            &&& old(database)@.transcriptions.first() == (id, text@)
            &&& final(database)@.transcriptions == old(database)@.transcriptions.skip(1)
        },
        received is None ==> final(database)@.transcriptions.len() == 0,
        final(database)@.notifications == old(database)@.notifications,
        same_handlers(old(database)@, final(database)@),
{
    if received is Some {
        assert(final(database)@.transcriptions =~= old(database)@.transcriptions.skip(1));
    }
}

/// The notification that has waited longest is received, if any waits; the others wait on.
pub proof fn oldest_notification_is_received(
    database: &mut HandlerDatabase,
    received: Option<WsNotification>,
)
    requires
        call_ensures(HandlerDatabase::recv_notification, (database,), received),
    ensures
        received is Some <==> old(database)@.notifications.len() > 0,
        received matches Some(notification) ==> {
            &&& old(database)@.notifications.first() == notification
            &&& final(database)@.notifications == old(database)@.notifications.skip(1)
        },
        received is None ==> final(database)@.notifications.len() == 0,
        final(database)@.transcriptions == old(database)@.transcriptions,
        same_handlers(old(database)@, final(database)@),
{
    if received is Some {
        assert(final(database)@.notifications =~= old(database)@.notifications.skip(1));
    }
}

/// An action is sent to the handler that it is for and to no other, and the result tells whether it
/// was taken in. There is no result without a handler.
pub proof fn action_is_sent_to_its_handler(
    database: &mut HandlerDatabase,
    id: u128,
    action: MessageHandlerAction,
    sent: Option<()>,
)
    requires
        call_ensures(HandlerDatabase::send, (database, id, action), sent),
    ensures
        only_sent(old(database)@, final(database)@, id, action@),
        old(database)@.handlers.contains_key(id) ==> (final(database)@.handlers[id].sent.last().1
            <==> sent is Some),
        !old(database)@.handlers.contains_key(id) ==> sent is None,
{
    if old(database)@.handlers.contains_key(id) {
        assert(final(database)@.handlers[id].sent.drop_last()
            =~= old(database)@.handlers[id].sent);
    }
}

/// What speech recognition of a call has recognized waits as a transcription of this call.
pub proof fn recognized_speech_waits(
    id: u128,
    sink: SpeechRecognitionSink,
    database: &mut HandlerDatabase,
    response: SpeechRecognitionResponse,
)
    requires
        call_ensures(SpeechRecognitionSink::new, (id,), sink),
        call_ensures(SpeechRecognitionSink::start_send, (&sink, database, response), ()),
    ensures
        final(database)@.transcriptions.len() == old(database)@.transcriptions.len() + 1,
        final(database)@.transcriptions.drop_last() == old(database)@.transcriptions,
        final(database)@.transcriptions.last() == (id, response.transcription@),
        final(database)@.notifications == old(database)@.notifications,
        same_handlers(old(database)@, final(database)@),
{
    assert(final(database)@.transcriptions.drop_last() =~= old(database)@.transcriptions);
}

/// What was synthesized is sent, all of it, to the handler that it is for, to be played.
pub proof fn synthesized_speech_is_played(
    sink: SpeechSynthesisSink,
    database: &mut HandlerDatabase,
    response: SpeechSynthesisResponse,
)
    requires
        call_ensures(SpeechSynthesisSink::start_send, (&sink, database, response), ()),
    ensures
        only_sent(
            old(database)@,
            final(database)@,
            response.id,
            MessageHandlerActionView::Play(response.audio@),
        ),
{
    if old(database)@.handlers.contains_key(response.id) {
        assert(final(database)@.handlers[response.id].sent.drop_last()
            =~= old(database)@.handlers[response.id].sent);
    }
}

} // verus!
