use vstd::prelude::*;

use crate::action::{MessageHandlerAction, MessageHandlerActionView};
use crate::db::{
    offered_to, offers_arrive_in_order, transcriptions_come_out_in_order, HandlerDatabase,
    HandlerDatabaseView,
};
use crate::recognition::{RecognitionOptions, SpeechRecognitionConfig};
use crate::service::SpawnedSpeechSynthesis;
use crate::synthesis::{
    NumberBits, SpeechSynthesisRequest, SpeechSynthesisRequestView, SynthesisVoiceGender,
};

verus! {

/// Notifications, that message handlers send to WebSocket clients.
#[derive(Debug, Clone, Copy, PartialEq, Eq, Structural)]
pub enum WsNotification {
    /// The handler of a call asks for its speech recognition config.
    RecognitionConfigRequest(u128),
}

/// Generic WebSocket message for both requests and responses.
#[derive(Debug)]
pub struct WsMessage {
    /// ID of handler, that has to receive request, or that sends response.
    pub id: u128,

    /// Inner message data.
    pub data: WsAction,
}

/// WebSocket actions, that handler can send or execute.
#[derive(Debug)]
pub enum WsAction {
    /// Terminate current call.
    Hangup,

    /// Synthesize speech using configurated service and play it on channel.
    Synthesize {
        /// Text to synthesize, possibly with SSML markup.
        ssml: String,

        /// Language and region of of the voice expressed as a BCP-47 language tag.
        language_code: String,

        /// Preferred voice gender.
        gender: Option<String>,

        /// Preferred speaking rate.
        speaking_rate: Option<NumberBits>,

        /// Preferred pitch.
        pitch: Option<NumberBits>,
    },

    /// Provide speech recognition config of current call.
    RecognitionConfig(RecognitionOptions),

    /// Speech transcription part of current call.
    Transcription(String),

    /// Ask for speech recognition config of current call.
    RecognitionConfigRequest,
}

/// Errors, that may happen during WebSocket connection.
#[derive(Debug)]
pub enum WsError {
    /// The content of a message is not a [`WsMessage`].
    InvalidMessageReceived(String),

    /// The connection failed.
    InternalError(String),

    /// A message without content for EMS.
    UnsupportedMessageType,
}

impl WsError {
    /// Text of the error.
    pub open spec fn text(self) -> Seq<char> {
        match self {
            WsError::InvalidMessageReceived(reason) => "Invalid message received: "@ + reason@,
            WsError::InternalError(reason) => "Internal WebSocket error: "@ + reason@,
            WsError::UnsupportedMessageType => "Unsupported WebSocket message type"@,
        }
    }

    /// Text of the error.
    pub fn describe(&self) -> (text: String)
        ensures
            text@ == self.text(),
    {
        match self {
            WsError::InvalidMessageReceived(reason) => "Invalid message received: ".to_owned().concat(
                reason.as_str(),
            ),
            WsError::InternalError(reason) => "Internal WebSocket error: ".to_owned().concat(
                reason.as_str(),
            ),
            WsError::UnsupportedMessageType => "Unsupported WebSocket message type".to_owned(),
        }
    }
}

/// A message of a WebSocket connection.
#[derive(Debug)]
pub enum WsFrame {
    /// A text message.
    Text(String),

    /// A binary message.
    Binary(Vec<u8>),

    /// Anything else: pings, pongs, the close message.
    Control,
}

/// Content that has to be read as a [`WsMessage`] in JSON.
#[derive(Debug)]
pub enum WsContent {
    /// Content of a text message.
    Text(String),

    /// Content of a binary message.
    Binary(Vec<u8>),
}

/// What to do with a message of a WebSocket connection.
#[derive(Debug)]
pub enum WsStep {
    /// Read the content, and accept the result.
    Read(WsContent),

    /// Nothing.
    Skip,

    /// Accept the error.
    Fail(WsError),
}

impl WsFrame {
    /// Content of the message.
    pub fn content(self) -> (result: Result<WsContent, WsError>)
        ensures
            result == match self {
                WsFrame::Text(text) => Ok(WsContent::Text(text)),
                WsFrame::Binary(bytes) => Ok(WsContent::Binary(bytes)),
                WsFrame::Control => Err(WsError::UnsupportedMessageType),
            },
    {
        match self {
            WsFrame::Text(text) => Ok(WsContent::Text(text)),
            WsFrame::Binary(bytes) => Ok(WsContent::Binary(bytes)),
            WsFrame::Control => Err(WsError::UnsupportedMessageType),
        }
    }

    /// Does the message have content?
    pub fn has_content(&self) -> (result: bool)
        ensures
            result == (*self is Text || *self is Binary),
    {
        match self {
            WsFrame::Text(_) | WsFrame::Binary(_) => true,
            WsFrame::Control => false,
        }
    }
}

/// What to do with a message of a WebSocket connection, or with the reason why there is none.
pub open spec fn frame_step(received: Result<WsFrame, String>) -> WsStep {
    match received {
        Ok(WsFrame::Text(text)) => WsStep::Read(WsContent::Text(text)),
        Ok(WsFrame::Binary(bytes)) => WsStep::Read(WsContent::Binary(bytes)),
        Ok(WsFrame::Control) => WsStep::Skip,
        Err(reason) => WsStep::Fail(WsError::InternalError(reason)),
    }
}

/// Take in a message of a WebSocket connection, or the reason why there is none.
///
/// Messages without content are skipped.
pub fn accept_frame(received: Result<WsFrame, String>) -> (step: WsStep)
    ensures
        step == frame_step(received),
{
    match received {
        Ok(frame) => {
            if frame.has_content() {
                match frame.content() {
                    Ok(content) => WsStep::Read(content),
                    Err(error) => WsStep::Fail(error),
                }
            } else {
                WsStep::Skip
            }
        },
        Err(reason) => WsStep::Fail(WsError::InternalError(reason)),
    }
}

/// The gender that a client asks for.
pub open spec fn requested_gender(gender: Option<Seq<char>>) -> Option<SynthesisVoiceGender> {
    match gender {
        Some(name) => Some(SynthesisVoiceGender::of_name(name)),
        None => None,
    }
}

/// What an optional text says.
pub open spec fn optional_text(text: Option<String>) -> Option<Seq<char>> {
    match text {
        Some(text) => Some(text@),
        None => None,
    }
}

/// Speech synthesis of a client after a request was sent to it, if there is any.
pub open spec fn speech_offered(
    before: Option<SpawnedSpeechSynthesis>,
    request: SpeechSynthesisRequestView,
    after: Option<SpawnedSpeechSynthesis>,
) -> bool {
    match (before, after) {
        (Some(before), Some(after)) => {
            &&& after.receivers() == before.receivers()
            &&& before.offered(request, after)
        },
        (None, None) => true,
        _ => false,
    }
}

/// Speech synthesis of a client can be sent to.
pub open spec fn synthesis_wf(synthesis: Option<SpawnedSpeechSynthesis>) -> bool {
    synthesis matches Some(spawned) ==> spawned.wf()
}

/// What a message of a client brings about.
pub ghost enum WsEffect {
    /// Nothing.
    Nothing,

    /// An action is sent to the handler of a call.
    Send(u128, MessageHandlerActionView),

    /// A request is sent to speech synthesis.
    Synthesize(SpeechSynthesisRequestView),
}

/// What a message of a client brings about. An invalid one, and one that only EMS sends, brings about
/// nothing.
pub open spec fn effect_of(received: Result<WsMessage, WsError>) -> WsEffect {
    match received {
        Ok(message) => match message.data {
            WsAction::Hangup => WsEffect::Send(message.id, MessageHandlerActionView::Hangup),
            WsAction::RecognitionConfig(options) => WsEffect::Send(
                message.id,
                MessageHandlerActionView::RecognitionConfig(options.config()),
            ),
            WsAction::Synthesize { ssml, language_code, gender, speaking_rate, pitch } =>
                WsEffect::Synthesize(
                    SpeechSynthesisRequestView {
                        id: message.id,
                        ssml: ssml@,
                        language_code: language_code@,
                        gender: requested_gender(optional_text(gender)),
                        speaking_rate,
                        pitch,
                    },
                ),
            WsAction::Transcription(_) => WsEffect::Nothing,
            WsAction::RecognitionConfigRequest => WsEffect::Nothing,
        },
        Err(_) => WsEffect::Nothing,
    }
}

/// The database and speech synthesis before and after an effect.
pub open spec fn takes_effect(
    effect: WsEffect,
    database: HandlerDatabaseView,
    database_after: HandlerDatabaseView,
    synthesis: Option<SpawnedSpeechSynthesis>,
    synthesis_after: Option<SpawnedSpeechSynthesis>,
) -> bool {
    &&& database.after_offer(effect.action(), database_after)
    &&& match effect {
        WsEffect::Synthesize(request) => speech_offered(synthesis, request, synthesis_after),
        _ => synthesis_after == synthesis,
    }
}

impl WsEffect {
    /// The action that is sent, with the handler that it is for.
    pub open spec fn action(self) -> Option<(u128, MessageHandlerActionView)> {
        match self {
            WsEffect::Send(id, action) => Some((id, action)),
            _ => None,
        }
    }
}

/// Take in a message of a client, or the reason why it is invalid.
///
/// A hangup or a speech recognition config goes to the handler of the call, speech goes to speech
/// synthesis. Messages that only EMS sends are ignored. Returns the error that has to be reported,
/// if there is any.
pub fn accept_message(
    database: &mut HandlerDatabase,
    synthesis: &mut Option<SpawnedSpeechSynthesis>,
    received: Result<WsMessage, WsError>,
) -> (invalid: Option<WsError>)
    requires
        old(database).wf(),
        synthesis_wf(*old(synthesis)),
    ensures
        final(database).wf(),
        synthesis_wf(*final(synthesis)),
        invalid == match received {
            Ok(_) => None,
            Err(error) => Some(error),
        },
        takes_effect(
            effect_of(received),
            old(database)@,
            final(database)@,
            *old(synthesis),
            *final(synthesis),
        ),
{
    match received {
        Ok(message) => {
            let id: u128 = message.id;
            match message.data {
                WsAction::Hangup => {
                    database.send(id, MessageHandlerAction::Hangup);
                },
                WsAction::RecognitionConfig(options) => {
                    let config = SpeechRecognitionConfig::from_options(options);
                    database.send(id, MessageHandlerAction::RecognitionConfig(config));
                },
                WsAction::Synthesize { ssml, language_code, gender, speaking_rate, pitch } => {
                    if let Some(spawned) = synthesis {
                        let gender = match gender {
                            Some(name) => Some(SynthesisVoiceGender::from(name.as_str())),
                            None => None,
                        };
                        spawned.send(
                            SpeechSynthesisRequest {
                                id,
                                ssml,
                                language_code,
                                gender,
                                speaking_rate,
                                pitch,
                            },
                        );
                    }
                },
                WsAction::Transcription(_) | WsAction::RecognitionConfigRequest => {},
            }
            None
        },
        Err(error) => Some(error),
    }
}

/// The oldest transcription of a database, as a message to a client, and the database without it.
pub open spec fn takes_transcription(
    before: HandlerDatabaseView,
    message: Option<WsMessage>,
    after: HandlerDatabaseView,
) -> bool {
    match message {
        Some(message) => {
            &&& before.transcriptions.len() > 0
            &&& message.data matches WsAction::Transcription(text)
            &&& (message.id, text@) == before.transcriptions[0]
            &&& after == before.without_transcription()
        },
        None => before.transcriptions.len() == 0 && after == before,
    }
}

/// Take the next transcription out of the database, as a message to a client.
///
/// Returns [`None`] if there is none.
pub fn send_transcriptions(database: &mut HandlerDatabase) -> (message: Option<WsMessage>)
    requires
        old(database).wf(),
    ensures
        final(database).wf(),
        takes_transcription(old(database)@, message, final(database)@),
{
    match database.recv_transcription() {
        Some((id, transcription)) => Some(
            WsMessage { id, data: WsAction::Transcription(transcription) },
        ),
        None => None,
    }
}

/// Take the next notification out of the database, as a message to a client.
///
/// Returns [`None`] if there is none.
pub fn send_notifications(database: &mut HandlerDatabase) -> (message: Option<WsMessage>)
    requires
        old(database).wf(),
    ensures
        final(database).wf(),
        match message {
            Some(message) => {
                &&& old(database)@.notifications.len() > 0
                &&& old(database)@.notifications[0] == WsNotification::RecognitionConfigRequest(
                    message.id,
                )
                &&& message.data is RecognitionConfigRequest
                &&& final(database)@ == old(database)@.without_notification()
            },
            None => {
                &&& old(database)@.notifications.len() == 0
                &&& final(database)@ == old(database)@
            },
        },
{
    match database.recv_notification() {
        Some(WsNotification::RecognitionConfigRequest(id)) => Some(
            WsMessage { id, data: WsAction::RecognitionConfigRequest },
        ),
        None => None,
    }
}

/// The error that ends sending messages to a client, if sending one has failed.
pub open spec fn sending_end(result: Result<(), String>) -> Option<WsError> {
    match result {
        Ok(_) => None,
        Err(reason) => Some(WsError::InternalError(reason)),
    }
}

/// Take in what became of sending a message to a client.
///
/// Returns [`None`] if the next message has to be sent, and the error that ends sending otherwise.
pub fn after_sending(result: Result<(), String>) -> (end: Option<WsError>)
    ensures
        end == sending_end(result),
{
    match result {
        Ok(()) => None,
        Err(reason) => Some(WsError::InternalError(reason)),
    }
}

/// A client gets transcriptions in the order in which they were added, none twice and none left out,
/// until sending one fails: then sending ends with the reason, and never without one.
///
/// `databases` are the states of the database before and behind each message that is taken out for
/// the client, `results` tell what became of sending it. Only the last one has failed; its
/// transcription is gone, all behind it still wait.
pub proof fn client_gets_transcriptions_until_sending_fails(
    database: HandlerDatabaseView,
    added: Seq<(u128, Seq<char>)>,
    databases: Seq<HandlerDatabaseView>,
    messages: Seq<WsMessage>,
    results: Seq<Result<(), String>>,
    reason: String,
)
    requires
        messages.len() > 0,
        databases.len() == messages.len() + 1,
        results.len() == messages.len(),
        databases[0] == database.with_transcriptions(added),
        forall|i: int|
            0 <= i < messages.len() ==> takes_transcription(
                databases[i],
                Some(#[trigger] messages[i]),
                databases[i + 1],
            ),
        forall|i: int| 0 <= i < results.len() - 1 ==> (#[trigger] results[i]) is Ok,
        results.last() == Err::<(), String>(reason),
    ensures
        messages.len() <= database.transcriptions.len() + added.len(),
        forall|i: int|
            0 <= i < messages.len() ==> ((#[trigger] messages[i]).data
                matches WsAction::Transcription(text) && (messages[i].id, text@) == (
            database.transcriptions + added)[i]),
        forall|i: int|
            0 <= i < results.len() - 1 ==> sending_end(#[trigger] results[i]) is None,
        sending_end(results.last()) == Some(WsError::InternalError(reason)),
        databases.last().transcriptions == (database.transcriptions + added).skip(
            messages.len() as int,
        ),
{
    transcriptions_come_out_in_order(database, added, 0);
    assert((database.transcriptions + added).skip(0) =~= database.transcriptions + added);
    lemma_messages_in_order(databases, messages);
}

/// Messages are taken out of the queue one after another.
proof fn lemma_messages_in_order(databases: Seq<HandlerDatabaseView>, messages: Seq<WsMessage>)
    requires
        databases.len() == messages.len() + 1,
        forall|i: int|
            0 <= i < messages.len() ==> takes_transcription(
                databases[i],
                Some(#[trigger] messages[i]),
                databases[i + 1],
            ),
    ensures
        messages.len() <= databases[0].transcriptions.len(),
        databases.last().transcriptions == databases[0].transcriptions.skip(messages.len() as int),
        forall|i: int|
            0 <= i < messages.len() ==> ((#[trigger] messages[i]).data
                matches WsAction::Transcription(text) && (messages[i].id, text@)
                == databases[0].transcriptions[i]),
    decreases messages.len(),
{
    let queue = databases[0].transcriptions;
    if messages.len() > 0 {
        let before = messages.drop_last();
        let earlier = databases.drop_last();
        assert forall|i: int| 0 <= i < before.len() implies takes_transcription(
            earlier[i],
            Some(#[trigger] before[i]),
            earlier[i + 1],
        ) by {
            assert(before[i] == messages[i]);
        }
        lemma_messages_in_order(earlier, before);
        let last = messages.len() - 1;
        assert(takes_transcription(databases[last], Some(messages[last]), databases[last + 1]));
        assert(earlier.last() == databases[last]);
        assert(queue.skip(last).drop_first() =~= queue.skip(last + 1));
        assert forall|i: int| 0 <= i < messages.len() implies ((#[trigger] messages[i]).data
            matches WsAction::Transcription(text) && (messages[i].id, text@) == queue[i]) by {
            if i < last {
                assert(before[i] == messages[i]);
            }
        }
    } else {
        assert(queue.skip(0) =~= queue);
    }
}

/// What an item of a WebSocket connection brings about, if content is read by `read`.
pub open spec fn item_effect(
    read: spec_fn(WsContent) -> Result<WsMessage, WsError>,
    item: Result<WsFrame, String>,
) -> WsEffect {
    match frame_step(item) {
        WsStep::Read(content) => effect_of(read(content)),
        WsStep::Skip => WsEffect::Nothing,
        WsStep::Fail(error) => effect_of(Err(error)),
    }
}

/// What the items of a WebSocket connection bring about, one after another.
pub open spec fn effects(
    read: spec_fn(WsContent) -> Result<WsMessage, WsError>,
    items: Seq<Result<WsFrame, String>>,
) -> Seq<WsEffect> {
    items.map_values(|item: Result<WsFrame, String>| item_effect(read, item))
}

/// The actions of effects, each with the handler that it is for.
pub open spec fn actions_of(effects: Seq<WsEffect>) -> Seq<
    Option<(u128, MessageHandlerActionView)>,
> {
    effects.map_values(|effect: WsEffect| effect.action())
}

/// The requests for speech synthesis among effects, in order.
pub open spec fn requests_of(effects: Seq<WsEffect>) -> Seq<SpeechSynthesisRequestView>
    decreases effects.len(),
{
    if effects.len() == 0 {
        Seq::empty()
    } else {
        match effects.last() {
            WsEffect::Synthesize(request) => requests_of(effects.drop_last()).push(request),
            _ => requests_of(effects.drop_last()),
        }
    }
}

/// The requests that were sent to speech synthesis, oldest first, taken in or not.
pub open spec fn requests_sent(synthesis: Option<SpawnedSpeechSynthesis>) -> Seq<
    SpeechSynthesisRequestView,
> {
    match synthesis {
        Some(spawned) => spawned.sent().map_values(
            |item: (SpeechSynthesisRequestView, bool)| item.0,
        ),
        None => Seq::empty(),
    }
}

/// Accepting all items of a WebSocket connection: the states of the database and of speech synthesis
/// before and behind each of them.
pub open spec fn is_acceptance(
    read: spec_fn(WsContent) -> Result<WsMessage, WsError>,
    items: Seq<Result<WsFrame, String>>,
    databases: Seq<HandlerDatabaseView>,
    syntheses: Seq<Option<SpawnedSpeechSynthesis>>,
) -> bool {
    &&& databases.len() == items.len() + 1
    &&& syntheses.len() == items.len() + 1
    &&& forall|i: int|
        0 <= i < items.len() ==> takes_effect(
            item_effect(read, #[trigger] items[i]),
            databases[i],
            databases[i + 1],
            syntheses[i],
            syntheses[i + 1],
        )
}

/// All items of a connection are accepted, and take effect in order: every registered handler is sent
/// exactly the actions that are for it, and speech synthesis, if there is any, exactly the requests.
pub proof fn items_take_effect_in_order(
    read: spec_fn(WsContent) -> Result<WsMessage, WsError>,
    items: Seq<Result<WsFrame, String>>,
    databases: Seq<HandlerDatabaseView>,
    syntheses: Seq<Option<SpawnedSpeechSynthesis>>,
    id: u128,
)
    requires
        is_acceptance(read, items, databases, syntheses),
    ensures
        databases[0].handlers.contains_key(id) ==> {
            &&& databases.last().handlers.contains_key(id)
            &&& databases.last().handlers[id].actions() == databases[0].handlers[id].actions()
                + offered_to(actions_of(effects(read, items)), id)
        },
        syntheses.last() is Some <==> syntheses[0] is Some,
        syntheses[0] is Some ==> requests_sent(syntheses.last()) == requests_sent(syntheses[0])
            + requests_of(effects(read, items)),
{
    let offers = actions_of(effects(read, items));
    assert forall|i: int| 0 <= i < offers.len() implies databases[i].after_offer(
        offers[i],
        #[trigger] databases[i + 1],
    ) by {
        assert(takes_effect(
            item_effect(read, items[i]),
            databases[i],
            databases[i + 1],
            syntheses[i],
            syntheses[i + 1],
        ));
    }
    if databases[0].handlers.contains_key(id) {
        offers_arrive_in_order(offers, databases, id);
    }
    lemma_requests_in_order(read, items, databases, syntheses);
}

/// Speech synthesis gets the requests one after another.
proof fn lemma_requests_in_order(
    read: spec_fn(WsContent) -> Result<WsMessage, WsError>,
    items: Seq<Result<WsFrame, String>>,
    databases: Seq<HandlerDatabaseView>,
    syntheses: Seq<Option<SpawnedSpeechSynthesis>>,
)
    requires
        is_acceptance(read, items, databases, syntheses),
    ensures
        syntheses.last() is Some <==> syntheses[0] is Some,
        syntheses[0] is Some ==> requests_sent(syntheses.last()) == requests_sent(syntheses[0])
            + requests_of(effects(read, items)),
    decreases items.len(),
{
    let start = requests_sent(syntheses[0]);
    if items.len() > 0 {
        let last = items.len() - 1;
        let before = items.drop_last();
        let earlier = syntheses.drop_last();
        assert(is_acceptance(read, before, databases.drop_last(), earlier)) by {
            assert forall|i: int| 0 <= i < before.len() implies takes_effect(
                item_effect(read, #[trigger] before[i]),
                databases.drop_last()[i],
                databases.drop_last()[i + 1],
                earlier[i],
                earlier[i + 1],
            ) by {
                assert(before[i] == items[i]);
            }
        }
        lemma_requests_in_order(read, before, databases.drop_last(), earlier);
        assert(takes_effect(
            item_effect(read, items[last]),
            databases[last],
            databases[last + 1],
            syntheses[last],
            syntheses[last + 1],
        ));
        assert(effects(read, items).drop_last() =~= effects(read, before));
        assert(effects(read, items).last() == item_effect(read, items[last]));
        assert(earlier.last() == syntheses[last]);
        if syntheses[0] is Some {
            if let WsEffect::Synthesize(request) = item_effect(read, items[last]) {
                assert(requests_sent(syntheses[last + 1]) =~= requests_sent(syntheses[last]).push(
                    request,
                ));
                assert((start + requests_of(effects(read, before))).push(request) =~= start
                    + requests_of(effects(read, items)));
            }
        }
    } else {
        assert(start + requests_of(effects(read, items)) =~= start);
    }
}

/// Is an item of a WebSocket connection a message with content that can be read?
pub open spec fn is_well_formed(
    read: spec_fn(WsContent) -> Result<WsMessage, WsError>,
    item: Result<WsFrame, String>,
) -> bool {
    frame_step(item) matches WsStep::Read(content) && read(content) is Ok
}

/// An item with its content as text.
pub open spec fn in_text(
    text_of: spec_fn(Vec<u8>) -> String,
    item: Result<WsFrame, String>,
) -> Result<WsFrame, String> {
    match item {
        Ok(WsFrame::Binary(bytes)) => Ok(WsFrame::Text(text_of(bytes))),
        _ => item,
    }
}

/// The well-formed items of a WebSocket connection, all of them as text.
pub open spec fn cleaned(
    read: spec_fn(WsContent) -> Result<WsMessage, WsError>,
    text_of: spec_fn(Vec<u8>) -> String,
    items: Seq<Result<WsFrame, String>>,
) -> Seq<Result<WsFrame, String>>
    decreases items.len(),
{
    if items.len() == 0 {
        Seq::empty()
    } else if is_well_formed(read, items.last()) {
        cleaned(read, text_of, items.drop_last()).push(in_text(text_of, items.last()))
    } else {
        cleaned(read, text_of, items.drop_last())
    }
}

/// Errors, control messages and malformed messages have no effect, and it makes no difference whether
/// a message comes as text or as binary: a connection and the same connection with nothing but
/// well-formed texts, both accepted from the same state on, send the same actions to every registered
/// handler and the same requests to speech synthesis, in the same order.
///
/// Reading has to give the same message for binary content and for the text of it.
pub proof fn clean_connection_has_the_same_effect(
    read: spec_fn(WsContent) -> Result<WsMessage, WsError>,
    text_of: spec_fn(Vec<u8>) -> String,
    items: Seq<Result<WsFrame, String>>,
    databases: Seq<HandlerDatabaseView>,
    syntheses: Seq<Option<SpawnedSpeechSynthesis>>,
    clean_databases: Seq<HandlerDatabaseView>,
    clean_syntheses: Seq<Option<SpawnedSpeechSynthesis>>,
    id: u128,
)
    requires
        forall|bytes: Vec<u8>|
            (#[trigger] read(WsContent::Binary(bytes))) is Ok ==> read(
                WsContent::Text(text_of(bytes)),
            ) == read(WsContent::Binary(bytes)),
        is_acceptance(read, items, databases, syntheses),
        is_acceptance(
            read,
            cleaned(read, text_of, items),
            clean_databases,
            clean_syntheses,
        ),
        clean_databases[0] == databases[0],
        clean_syntheses[0] == syntheses[0],
    ensures
        databases[0].handlers.contains_key(id) ==> {
            &&& databases.last().handlers.contains_key(id)
            &&& clean_databases.last().handlers.contains_key(id)
            &&& databases.last().handlers[id].actions()
                == clean_databases.last().handlers[id].actions()
        },
        requests_sent(syntheses.last()) == requests_sent(clean_syntheses.last()),
{
    let clean = cleaned(read, text_of, items);
    items_take_effect_in_order(read, items, databases, syntheses, id);
    items_take_effect_in_order(read, clean, clean_databases, clean_syntheses, id);
    lemma_cleaned_effects(read, text_of, items, id);
}

/// Cleaning changes neither the actions nor the requests.
proof fn lemma_cleaned_effects(
    read: spec_fn(WsContent) -> Result<WsMessage, WsError>,
    text_of: spec_fn(Vec<u8>) -> String,
    items: Seq<Result<WsFrame, String>>,
    id: u128,
)
    requires
        forall|bytes: Vec<u8>|
            (#[trigger] read(WsContent::Binary(bytes))) is Ok ==> read(
                WsContent::Text(text_of(bytes)),
            ) == read(WsContent::Binary(bytes)),
    ensures
        offered_to(actions_of(effects(read, items)), id) == offered_to(
            actions_of(effects(read, cleaned(read, text_of, items))),
            id,
        ),
        requests_of(effects(read, items)) == requests_of(
            effects(read, cleaned(read, text_of, items)),
        ),
    decreases items.len(),
{
    if items.len() > 0 {
        let before = items.drop_last();
        let item = items.last();
        let rest = cleaned(read, text_of, before);
        let clean = cleaned(read, text_of, items);
        lemma_cleaned_effects(read, text_of, before, id);
        assert(effects(read, items).drop_last() =~= effects(read, before));
        assert(effects(read, items).last() == item_effect(read, item));
        assert(actions_of(effects(read, items)).drop_last() =~= actions_of(effects(read, before)));
        assert(actions_of(effects(read, items)).last() == item_effect(read, item).action());
        if is_well_formed(read, item) {
            let text = in_text(text_of, item);
            assert(item_effect(read, text) == item_effect(read, item));
            assert(clean.last() == text);
            assert(clean.drop_last() =~= rest);
            assert(effects(read, clean).drop_last() =~= effects(read, rest));
            assert(effects(read, clean).last() == item_effect(read, text));
            assert(actions_of(effects(read, clean)).drop_last() =~= actions_of(
                effects(read, rest),
            ));
            assert(actions_of(effects(read, clean)).last() == item_effect(read, text).action());
        } else {
            assert(item_effect(read, item) == WsEffect::Nothing);
        }
    }
}

} // verus!
