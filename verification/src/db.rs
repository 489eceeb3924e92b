use vstd::prelude::*;

use dashmap::DashMap;
use deadqueue::unlimited::Queue;
use flume::{Receiver, Sender};

use crate::action::{MessageHandlerAction, MessageHandlerActionView};
use crate::channel::{action_bound, action_log, action_receivers, send_action};
use crate::ws::WsNotification;

verus! {

/// A queue of the `deadqueue` crate.
#[verifier::external_type_specification]
#[verifier::external_body]
#[verifier::reject_recursive_types(T)]
pub struct ExQueue<T>(deadqueue::unlimited::Queue<T>);

/// A map of the `dashmap` crate.
#[verifier::external_type_specification]
#[verifier::external_body]
#[verifier::reject_recursive_types(K)]
#[verifier::reject_recursive_types(V)]
#[verifier::reject_recursive_types(S)]
pub struct ExDashMap<K, V, S>(dashmap::DashMap<K, V, S>);

/// The transcriptions in a queue, the next one to come out first.
pub uninterp spec fn queued_transcriptions(queue: Queue<(u128, String)>) -> Seq<(u128, String)>;

/// The notifications in a queue, the next one to come out first.
pub uninterp spec fn queued_notifications(queue: Queue<WsNotification>) -> Seq<WsNotification>;

/// The entries of a handler map.
pub uninterp spec fn map_entries(
    map: DashMap<u128, Sender<MessageHandlerAction>>,
) -> Map<u128, Sender<MessageHandlerAction>>;

/// Calls `deadqueue::unlimited::Queue::new`: an empty queue.
#[verifier::external_body]
fn new_transcriptions() -> (queue: Queue<(u128, String)>)
    ensures
        queued_transcriptions(queue) == Seq::<(u128, String)>::empty(),
{
    Queue::new()
}

/// Calls `deadqueue::unlimited::Queue::push`: the item comes in last.
#[verifier::external_body]
fn push_transcription(queue: &mut Queue<(u128, String)>, item: (u128, String))
    ensures
        queued_transcriptions(*final(queue)) == queued_transcriptions(*old(queue)).push(item),
{
    queue.push(item)
}

/// Calls `deadqueue::unlimited::Queue::try_pop`: the first item comes out, if there is one.
#[verifier::external_body]
fn pop_transcription(queue: &mut Queue<(u128, String)>) -> (item: Option<(u128, String)>)
    ensures
        match item {
            Some(item) => queued_transcriptions(*old(queue)).len() > 0 && item
                == queued_transcriptions(*old(queue))[0] && queued_transcriptions(*final(queue))
                == queued_transcriptions(*old(queue)).drop_first(),
            None => queued_transcriptions(*old(queue)).len() == 0 && queued_transcriptions(
                *final(queue),
            ).len() == 0,
        },
{
    queue.try_pop()
}

/// Calls `deadqueue::unlimited::Queue::new`: an empty queue.
#[verifier::external_body]
fn new_notifications() -> (queue: Queue<WsNotification>)
    ensures
        queued_notifications(queue) == Seq::<WsNotification>::empty(),
{
    Queue::new()
}

/// Calls `deadqueue::unlimited::Queue::push`: the item comes in last.
#[verifier::external_body]
fn push_notification(queue: &mut Queue<WsNotification>, item: WsNotification)
    ensures
        queued_notifications(*final(queue)) == queued_notifications(*old(queue)).push(item),
{
    queue.push(item)
}

/// Calls `deadqueue::unlimited::Queue::try_pop`: the first item comes out, if there is one.
#[verifier::external_body]
fn pop_notification(queue: &mut Queue<WsNotification>) -> (item: Option<WsNotification>)
    ensures
        match item {
            Some(item) => queued_notifications(*old(queue)).len() > 0 && item
                == queued_notifications(*old(queue))[0] && queued_notifications(*final(queue))
                == queued_notifications(*old(queue)).drop_first(),
            None => queued_notifications(*old(queue)).len() == 0 && queued_notifications(
                *final(queue),
            ).len() == 0,
        },
{
    queue.try_pop()
}

/// Calls `dashmap::DashMap::new`: an empty map.
#[verifier::external_body]
fn new_map() -> (handlers: DashMap<u128, Sender<MessageHandlerAction>>)
    ensures
        map_entries(handlers) == (Map::<u128, Sender<MessageHandlerAction>>::empty()),
{
    DashMap::new()
}

/// Calls `dashmap::DashMap::insert`: the entry of the key is set, or replaced.
#[verifier::external_body]
fn map_insert(
    map: &mut DashMap<u128, Sender<MessageHandlerAction>>,
    id: u128,
    sender: Sender<MessageHandlerAction>,
)
    ensures
        map_entries(*final(map)) == map_entries(*old(map)).insert(id, sender),
{
    map.insert(id, sender);
}

/// Calls `dashmap::DashMap::remove`: the entry of the key is taken out, if there is one.
#[verifier::external_body]
fn map_remove(
    map: &mut DashMap<u128, Sender<MessageHandlerAction>>,
    id: u128,
) -> (sender: Option<Sender<MessageHandlerAction>>)
    ensures
        map_entries(*final(map)) == map_entries(*old(map)).remove(id),
        match sender {
            Some(sender) => map_entries(*old(map)).contains_key(id) && sender == map_entries(
                *old(map),
            )[id],
            None => !map_entries(*old(map)).contains_key(id),
        },
{
    map.remove(&id).map(|entry| entry.1)
}

/// Calls `dashmap::DashMap::is_empty`: there is no entry.
#[verifier::external_body]
fn map_is_empty(map: &DashMap<u128, Sender<MessageHandlerAction>>) -> (empty: bool)
    ensures
        empty == (map_entries(*map) == Map::<u128, Sender<MessageHandlerAction>>::empty()),
{
    map.is_empty()
}

/// The channel of a registered handler.
#[verifier::ext_equal]
pub ghost struct MailboxView {
    /// Receiving ends of the channel.
    pub receivers: Set<Receiver<MessageHandlerAction>>,

    /// Actions that were sent, oldest first, each with whether the channel took it in.
    pub sent: Seq<(MessageHandlerActionView, bool)>,
}

/// What a [`HandlerDatabase`] holds.
#[verifier::ext_equal]
pub ghost struct HandlerDatabaseView {
    /// Registered handlers, each with its channel.
    pub handlers: Map<u128, MailboxView>,

    /// Waiting transcriptions with the call they belong to, oldest first.
    pub transcriptions: Seq<(u128, Seq<char>)>,

    /// Waiting notifications, oldest first.
    pub notifications: Seq<WsNotification>,
}

/// What the actions of a log say.
pub open spec fn actions_view(log: Seq<(MessageHandlerAction, bool)>) -> Seq<
    (MessageHandlerActionView, bool),
> {
    log.map_values(|item: (MessageHandlerAction, bool)| (item.0@, item.1))
}

/// The channel that a sender belongs to.
pub open spec fn mailbox(sender: Sender<MessageHandlerAction>) -> MailboxView {
    MailboxView {
        receivers: action_receivers(sender),
        sent: actions_view(action_log(sender)),
    }
}

impl MailboxView {
    /// The channel after one more action was sent, and taken in or not.
    pub open spec fn with_action(self, action: MessageHandlerActionView, taken: bool) -> Self {
        MailboxView { sent: self.sent.push((action, taken)), ..self }
    }

    /// The actions that were sent, oldest first, taken in or not.
    pub open spec fn actions(self) -> Seq<MessageHandlerActionView> {
        self.sent.map_values(|item: (MessageHandlerActionView, bool)| item.0)
    }
}

/// What the transcriptions of a queue say.
pub open spec fn transcriptions_view(queue: Seq<(u128, String)>) -> Seq<(u128, Seq<char>)> {
    queue.map_values(|item: (u128, String)| (item.0, item.1@))
}

impl HandlerDatabaseView {
    /// The database after a handler was added.
    pub open spec fn with_handler(self, id: u128, mailbox: MailboxView) -> Self {
        HandlerDatabaseView { handlers: self.handlers.insert(id, mailbox), ..self }
    }

    /// The database after a handler was removed.
    pub open spec fn without_handler(self, id: u128) -> Self {
        HandlerDatabaseView { handlers: self.handlers.remove(id), ..self }
    }

    /// The database after a transcription was added.
    pub open spec fn with_transcription(self, id: u128, transcription: Seq<char>) -> Self {
        HandlerDatabaseView {
            transcriptions: self.transcriptions.push((id, transcription)),
            ..self
        }
    }

    /// The database after the oldest transcription was received.
    pub open spec fn without_transcription(self) -> Self {
        HandlerDatabaseView { transcriptions: self.transcriptions.drop_first(), ..self }
    }

    /// The database after a notification was added.
    pub open spec fn with_notification(self, notification: WsNotification) -> Self {
        HandlerDatabaseView { notifications: self.notifications.push(notification), ..self }
    }

    /// The database after the oldest notification was received.
    pub open spec fn without_notification(self) -> Self {
        HandlerDatabaseView { notifications: self.notifications.drop_first(), ..self }
    }

    /// The database after an action was sent to a handler, and taken in by its channel or not. If
    /// there is no such handler, nothing is sent.
    pub open spec fn with_action(
        self,
        id: u128,
        action: MessageHandlerActionView,
        taken: bool,
    ) -> Self {
        if self.handlers.contains_key(id) {
            HandlerDatabaseView {
                handlers: self.handlers.insert(id, self.handlers[id].with_action(action, taken)),
                ..self
            }
        } else {
            self
        }
    }

    /// `after` is the database after an action was sent to a handler, whether it was taken in or
    /// not.
    pub open spec fn offered(
        self,
        id: u128,
        action: MessageHandlerActionView,
        after: HandlerDatabaseView,
    ) -> bool {
        after == self.with_action(id, action, true) || after == self.with_action(id, action, false)
    }

    /// `after` is the database after an action was sent to a handler, if there is any to send.
    pub open spec fn after_offer(
        self,
        offer: Option<(u128, MessageHandlerActionView)>,
        after: HandlerDatabaseView,
    ) -> bool {
        match offer {
            Some((id, action)) => self.offered(id, action, after),
            None => after == self,
        }
    }
}

/// The actions for one handler among those that are sent, in order.
pub open spec fn offered_to(
    offers: Seq<Option<(u128, MessageHandlerActionView)>>,
    id: u128,
) -> Seq<MessageHandlerActionView>
    decreases offers.len(),
{
    if offers.len() == 0 {
        Seq::empty()
    } else {
        let before = offered_to(offers.drop_last(), id);
        match offers.last() {
            Some((to, action)) => if to == id {
                before.push(action)
            } else {
                before
            },
            None => before,
        }
    }
}

/// Message handler database.
///
/// Can be used to send various events to message handlers (call hangup, audio playback, etc.)
pub struct HandlerDatabase {
    transcription: Queue<(u128, String)>,
    notifications: Queue<WsNotification>,
    handler_map: DashMap<u128, Sender<MessageHandlerAction>>,
}

impl View for HandlerDatabase {
    type V = HandlerDatabaseView;

    closed spec fn view(&self) -> HandlerDatabaseView {
        HandlerDatabaseView {
            handlers: map_entries(self.handler_map).map_values(
                |sender: Sender<MessageHandlerAction>| mailbox(sender),
            ),
            transcriptions: transcriptions_view(queued_transcriptions(self.transcription)),
            notifications: queued_notifications(self.notifications),
        }
    }
}

impl Default for HandlerDatabase {
    fn default() -> (database: Self)
        ensures
            database.wf(),
            database@.handlers == Map::<u128, MailboxView>::empty(),
            database@.transcriptions == Seq::<(u128, Seq<char>)>::empty(),
            database@.notifications == Seq::<WsNotification>::empty(),
    {
        HandlerDatabase {
            transcription: new_transcriptions(),
            notifications: new_notifications(),
            handler_map: new_map(),
        }
    }
}

impl HandlerDatabase {
    /// No channel of a handler has a limit, so that nobody waits while sending.
    pub closed spec fn wf(self) -> bool {
        forall|id: u128| #[trigger]
            map_entries(self.handler_map).contains_key(id) ==> action_bound(
                map_entries(self.handler_map)[id],
            ) is None
    }

    /// Add new message handler to database.
    ///
    /// A handler that is registered under the same identifier is replaced.
    pub fn add_handler(&mut self, id: u128, sender: Sender<MessageHandlerAction>)
        requires
            old(self).wf(),
            action_bound(sender) is None,
        ensures
            final(self).wf(),
            final(self)@ == old(self)@.with_handler(id, mailbox(sender)),
    {
        map_insert(&mut self.handler_map, id, sender);
    }

    /// Remove handler from database.
    ///
    /// This should be called when call was terminated.
    pub fn remove_handler(&mut self, id: u128)
        requires
            old(self).wf(),
        ensures
            final(self).wf(),
            final(self)@ == old(self)@.without_handler(id),
    {
        map_remove(&mut self.handler_map, id);
    }

    /// Is there no message handler in database?
    pub fn is_empty(&self) -> (empty: bool)
        ensures
            empty == (self@.handlers == Map::<u128, MailboxView>::empty()),
    {
        let empty = map_is_empty(&self.handler_map);
        proof {
            let entries = map_entries(self.handler_map);
            assert(self@.handlers.dom() =~= entries.dom());
            if empty {
                assert(self@.handlers =~= Map::empty());
            } else if self@.handlers == Map::<u128, MailboxView>::empty() {
                assert(entries =~= Map::empty());
            }
        }
        empty
    }

    /// Add new recognized speech transcription.
    pub fn add_transcription(&mut self, id: u128, transcription: String)
        requires
            old(self).wf(),
        ensures
            final(self).wf(),
            final(self)@ == old(self)@.with_transcription(id, transcription@),
    {
        push_transcription(&mut self.transcription, (id, transcription));
    }

    /// Receive new recognized speech transcription.
    ///
    /// Returns [`None`] if there are no transcriptions in queue.
    pub fn recv_transcription(&mut self) -> (received: Option<(u128, String)>)
        requires
            old(self).wf(),
        ensures
            final(self).wf(),
            match received {
                Some((id, transcription)) => {
                    &&& old(self)@.transcriptions.len() > 0
                    &&& old(self)@.transcriptions[0] == (id, transcription@)
                    &&& final(self)@ == old(self)@.without_transcription()
                },
                None => old(self)@.transcriptions.len() == 0 && final(self)@ == old(self)@,
            },
    {
        pop_transcription(&mut self.transcription)
    }

    /// Add new notification for WebSocket clients.
    pub fn add_notification(&mut self, notification: WsNotification)
        requires
            old(self).wf(),
        ensures
            final(self).wf(),
            final(self)@ == old(self)@.with_notification(notification),
    {
        push_notification(&mut self.notifications, notification);
    }

    /// Receive new notification for WebSocket clients.
    ///
    /// Returns [`None`] if there are no notifications in queue.
    pub fn recv_notification(&mut self) -> (received: Option<WsNotification>)
        requires
            old(self).wf(),
        ensures
            final(self).wf(),
            match received {
                Some(notification) => {
                    &&& old(self)@.notifications.len() > 0
                    &&& old(self)@.notifications[0] == notification
                    &&& final(self)@ == old(self)@.without_notification()
                },
                None => old(self)@.notifications.len() == 0 && final(self)@ == old(self)@,
            },
    {
        pop_notification(&mut self.notifications)
    }

    /// Send an action to a message handler.
    ///
    /// Returns [`None`] if there is no such handler, or if it does not listen any more.
    pub fn send(&mut self, id: u128, action: MessageHandlerAction) -> (sent: Option<()>)
        requires
            old(self).wf(),
        ensures
            final(self).wf(),
            !old(self)@.handlers.contains_key(id) ==> sent is None,
            final(self)@ == old(self)@.with_action(id, action@, sent is Some),
    {
        // The map lends its values out only behind a lock of its own, so the sender is taken out
        // for the call and put back.
        match map_remove(&mut self.handler_map, id) {
            None => {
                assert(self@.handlers =~= old(self)@.handlers);
                None
            },
            Some(mut sender) => {
                let ghost before = mailbox(sender);
                let sent = send_action(&mut sender, action);
                let ghost after = mailbox(sender);
                map_insert(&mut self.handler_map, id, sender);
                assert(after.sent =~= before.sent.push((action@, sent is Ok)));
                assert(self@.handlers =~= old(self)@.handlers.insert(id, after));
                match sent {
                    Ok(()) => Some(()),
                    Err(_) => None,
                }
            },
        }
    }
}

impl HandlerDatabaseView {
    /// The database after these transcriptions were added, one after another.
    pub open spec fn with_transcriptions(self, added: Seq<(u128, Seq<char>)>) -> Self
        decreases added.len(),
    {
        if added.len() == 0 {
            self
        } else {
            self.with_transcriptions(added.drop_last()).with_transcription(
                added.last().0,
                added.last().1,
            )
        }
    }

    /// The database after that many transcriptions were received.
    pub open spec fn without_transcriptions(self, count: nat) -> Self
        decreases count,
    {
        if count == 0 {
            self
        } else {
            self.without_transcriptions((count - 1) as nat).without_transcription()
        }
    }

    /// The database after these notifications were added, one after another.
    pub open spec fn with_notifications(self, added: Seq<WsNotification>) -> Self
        decreases added.len(),
    {
        if added.len() == 0 {
            self
        } else {
            self.with_notifications(added.drop_last()).with_notification(added.last())
        }
    }

    /// The database after that many notifications were received.
    pub open spec fn without_notifications(self, count: nat) -> Self
        decreases count,
    {
        if count == 0 {
            self
        } else {
            self.without_notifications((count - 1) as nat).without_notification()
        }
    }

    /// The database after these actions were sent to a handler, one after another, each one taken in
    /// or not.
    pub open spec fn with_actions(
        self,
        id: u128,
        actions: Seq<(MessageHandlerActionView, bool)>,
    ) -> Self
        decreases actions.len(),
    {
        if actions.len() == 0 {
            self
        } else {
            self.with_actions(id, actions.drop_last()).with_action(
                id,
                actions.last().0,
                actions.last().1,
            )
        }
    }

    /// The database after the handlers of these identifiers were removed, one after another.
    pub open spec fn without_handlers(self, ids: Seq<u128>) -> Self
        decreases ids.len(),
    {
        if ids.len() == 0 {
            self
        } else {
            self.without_handlers(ids.drop_last()).without_handler(ids.last())
        }
    }
}

/// Transcriptions are received in the order in which they were added, each one once, behind those
/// that have waited before. Handlers and notifications have no part in it.
pub proof fn transcriptions_come_out_in_order(
    database: HandlerDatabaseView,
    added: Seq<(u128, Seq<char>)>,
    count: nat,
)
    requires
        count <= database.transcriptions.len() + added.len(),
    ensures
        database.with_transcriptions(added).without_transcriptions(count) == (HandlerDatabaseView {
            transcriptions: (database.transcriptions + added).skip(count as int),
            ..database
        }),
    decreases count, added.len(),
{
    if count > 0 {
        let before = (count - 1) as nat;
        transcriptions_come_out_in_order(database, added, before);
        assert((database.transcriptions + added).skip(before as int).drop_first() =~= (
        database.transcriptions + added).skip(count as int));
    } else if added.len() > 0 {
        transcriptions_come_out_in_order(database, added.drop_last(), 0);
        assert((database.transcriptions + added.drop_last()).push(added.last()) =~= (
        database.transcriptions + added).skip(0));
    } else {
        assert((database.transcriptions + added).skip(0) =~= database.transcriptions);
    }
}

/// Notifications are received in the order in which they were added, each one once, behind those
/// that have waited before. Handlers and transcriptions have no part in it.
pub proof fn notifications_come_out_in_order(
    database: HandlerDatabaseView,
    added: Seq<WsNotification>,
    count: nat,
)
    requires
        count <= database.notifications.len() + added.len(),
    ensures
        database.with_notifications(added).without_notifications(count) == (HandlerDatabaseView {
            notifications: (database.notifications + added).skip(count as int),
            ..database
        }),
    decreases count, added.len(),
{
    if count > 0 {
        let before = (count - 1) as nat;
        notifications_come_out_in_order(database, added, before);
        assert((database.notifications + added).skip(before as int).drop_first() =~= (
        database.notifications + added).skip(count as int));
    } else if added.len() > 0 {
        notifications_come_out_in_order(database, added.drop_last(), 0);
        assert((database.notifications + added.drop_last()).push(added.last()) =~= (
        database.notifications + added).skip(0));
    } else {
        assert((database.notifications + added).skip(0) =~= database.notifications);
    }
}

/// The channel of a handler gets actions in the order in which they were sent, behind those that it
/// has got before. It stays the same channel, and all other handlers are left alone.
pub proof fn actions_are_sent_in_order(
    database: HandlerDatabaseView,
    id: u128,
    actions: Seq<(MessageHandlerActionView, bool)>,
)
    requires
        database.handlers.contains_key(id),
    ensures
        database.with_actions(id, actions) == (HandlerDatabaseView {
            handlers: database.handlers.insert(
                id,
                (MailboxView {
                    sent: database.handlers[id].sent + actions,
                    ..database.handlers[id]
                }),
            ),
            ..database
        }),
    decreases actions.len(),
{
    let sent = database.handlers[id].sent;
    if actions.len() > 0 {
        let before = actions.drop_last();
        actions_are_sent_in_order(database, id, before);
        assert((sent + before).push(actions.last()) =~= sent + actions);
        assert(database.with_actions(id, actions).handlers =~= database.handlers.insert(
            id,
            MailboxView { sent: sent + actions, ..database.handlers[id] },
        ));
    } else {
        assert(sent + actions =~= sent);
        assert(database.handlers.insert(id, database.handlers[id]) =~= database.handlers);
    }
}

/// Nothing is sent to a handler that is not registered: it leaves the database as it was.
pub proof fn unknown_handler_gets_nothing(
    database: HandlerDatabaseView,
    id: u128,
    action: MessageHandlerActionView,
    after: HandlerDatabaseView,
)
    requires
        !database.handlers.contains_key(id),
        database.offered(id, action, after),
    ensures
        after == database,
{
}

/// A handler that was added and removed leaves no trace, whatever was sent to it meanwhile: its
/// identifier is free again, and everything else is as it was.
pub proof fn removed_handler_leaves_no_trace(
    database: HandlerDatabaseView,
    id: u128,
    mailbox: MailboxView,
    actions: Seq<(MessageHandlerActionView, bool)>,
)
    ensures
        !database.without_handler(id).handlers.contains_key(id),
        database.with_handler(id, mailbox).with_actions(id, actions).without_handler(id)
            == database.without_handler(id),
        !database.handlers.contains_key(id) ==> database.without_handler(id) == database,
{
    actions_are_sent_in_order(database.with_handler(id, mailbox), id, actions);
    assert(database.with_handler(id, mailbox).with_actions(id, actions).without_handler(id).handlers
        =~= database.without_handler(id).handlers);
    if !database.handlers.contains_key(id) {
        assert(database.without_handler(id).handlers =~= database.handlers);
    }
}

/// Removing handlers leaves those that are not named, and only those.
pub proof fn removal_leaves_the_others(database: HandlerDatabaseView, ids: Seq<u128>)
    ensures
        forall|id: u128| #[trigger]
            database.without_handlers(ids).handlers.contains_key(id)
                <==> database.handlers.contains_key(id) && !ids.contains(id),
        forall|id: u128|
            database.without_handlers(ids).handlers.contains_key(id) ==> (
            #[trigger] database.without_handlers(ids).handlers[id]) == database.handlers[id],
    decreases ids.len(),
{
    if ids.len() > 0 {
        let before = ids.drop_last();
        removal_leaves_the_others(database, before);
        assert forall|id: u128| ids.contains(id) <==> #[trigger] before.contains(id) || id
            == ids.last() by {
            if ids.contains(id) {
                let i = choose|i: int| 0 <= i < ids.len() && ids[i] == id;
                if i < before.len() {
                    assert(before[i] == id);
                }
            }
            if before.contains(id) {
                let i = choose|i: int| 0 <= i < before.len() && before[i] == id;
                assert(ids[i] == id);
            }
            if id == ids.last() {
                assert(ids[ids.len() - 1] == id);
            }
        }
        let earlier = database.without_handlers(before).handlers;
        let left = database.without_handlers(ids).handlers;
        assert(left == earlier.remove(ids.last()));
        assert forall|id: u128| #[trigger]
            left.contains_key(id) <==> database.handlers.contains_key(id) && !ids.contains(id) by {
            assert(left.contains_key(id) <==> earlier.contains_key(id) && id != ids.last());
            assert(ids.contains(id) <==> before.contains(id) || id == ids.last());
        }
        assert forall|id: u128| left.contains_key(id) implies (#[trigger] left[id])
            == database.handlers[id] by {
            assert(earlier.contains_key(id));
            assert(left[id] == earlier[id]);
        }
    }
}

/// A registered handler is sent exactly the actions that are for it, in order, behind those that it
/// was sent before. Its channel stays the same, and the queues have no part in it. `databases` are the
/// states of the database from before the first offer up to behind the last one.
pub proof fn offers_arrive_in_order(
    offers: Seq<Option<(u128, MessageHandlerActionView)>>,
    databases: Seq<HandlerDatabaseView>,
    id: u128,
)
    requires
        databases.len() == offers.len() + 1,
        forall|i: int|
            0 <= i < offers.len() ==> databases[i].after_offer(
                offers[i],
                #[trigger] databases[i + 1],
            ),
        databases[0].handlers.contains_key(id),
    ensures
        databases.last().handlers.contains_key(id),
        databases.last().handlers[id].actions() == databases[0].handlers[id].actions() + offered_to(
            offers,
            id,
        ),
        databases.last().handlers[id].receivers == databases[0].handlers[id].receivers,
        databases.last().transcriptions == databases[0].transcriptions,
        databases.last().notifications == databases[0].notifications,
    decreases offers.len(),
{
    let start = databases[0].handlers[id].actions();
    if offers.len() > 0 {
        let before = offers.drop_last();
        let earlier = databases.drop_last();
        assert forall|i: int| 0 <= i < before.len() implies earlier[i].after_offer(
            before[i],
            #[trigger] earlier[i + 1],
        ) by {
            assert(databases[i].after_offer(offers[i], databases[i + 1]));
        }
        offers_arrive_in_order(before, earlier, id);
        let last = offers.len() - 1;
        assert(databases[last].after_offer(offers[last], databases[last + 1]));
        let old_box = earlier.last().handlers[id];
        let new_box = databases.last().handlers[id];
        if let Some((to, action)) = offers[last] {
            if to == id {
                assert(new_box.actions() =~= old_box.actions().push(action));
                assert(old_box.actions().push(action) =~= start + offered_to(offers, id));
            }
        }
    } else {
        assert(start + offered_to(offers, id) =~= start);
    }
}

/// Of all handlers that were added under one identifier, only the last one gets what is sent to it,
/// once. Sending does not change which identifiers are registered.
pub proof fn last_added_handler_gets_the_action(
    database: HandlerDatabaseView,
    id: u128,
    replaced: MailboxView,
    mailbox: MailboxView,
    action: MessageHandlerActionView,
    after: HandlerDatabaseView,
)
    requires
        database.with_handler(id, replaced).with_handler(id, mailbox).offered(id, action, after),
    ensures
        after == database.with_handler(id, mailbox.with_action(action, true)) || after
            == database.with_handler(id, mailbox.with_action(action, false)),
        after.handlers.dom() == database.handlers.dom().insert(id),
{
    let added = database.with_handler(id, replaced).with_handler(id, mailbox);
    assert(added.with_action(id, action, true).handlers =~= database.with_handler(
        id,
        mailbox.with_action(action, true),
    ).handlers);
    assert(added.with_action(id, action, false).handlers =~= database.with_handler(
        id,
        mailbox.with_action(action, false),
    ).handlers);
    assert(after.handlers.dom() =~= database.handlers.dom().insert(id));
}

/// The view of a database leaves nothing out: it has every entry of the map with all that was sent
/// through its sender, and every item of the queues, in order.
proof fn view_shows_all_of_the_database(database: HandlerDatabase)
    ensures
        forall|id: u128| #[trigger]
            database@.handlers.contains_key(id) <==> map_entries(
                database.handler_map,
            ).contains_key(id),
        forall|id: u128|
            map_entries(database.handler_map).contains_key(id) ==> ({
                let sender = map_entries(database.handler_map)[id];
                let mailbox = #[trigger] database@.handlers[id];
                &&& mailbox.receivers == action_receivers(sender)
                &&& mailbox.sent.len() == action_log(sender).len()
                &&& forall|i: int|
                    0 <= i < action_log(sender).len() ==> (#[trigger] mailbox.sent[i]) == (
                        action_log(sender)[i].0@,
                        action_log(sender)[i].1,
                    )
            }),
        database@.transcriptions.len() == queued_transcriptions(database.transcription).len(),
        forall|i: int|
            0 <= i < database@.transcriptions.len() ==> (#[trigger] database@.transcriptions[i]) == (
                queued_transcriptions(database.transcription)[i].0,
                queued_transcriptions(database.transcription)[i].1@,
            ),
        database@.notifications == queued_notifications(database.notifications),
{
}

} // verus!
