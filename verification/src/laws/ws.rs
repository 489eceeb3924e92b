use vstd::prelude::*;

use crate::action::{MessageHandlerAction, MessageHandlerActionView};
use crate::config::Config;
use crate::db::HandlerDatabase;
use crate::handler::{prepare_recognition_service, ActionStep, IdentifiableMessageHandler};
use crate::laws::config::says;
use crate::laws::database::{lemma_only_sent, only_sent, same_handlers, same_queues};
use crate::laws::handler::action_is_carried_out;
use crate::recognition::{RecognitionOptions, SpeechRecognitionConfig, SpeechRecognitionConfigView};
use crate::server::ServerError;
use crate::service::{RecognitionTask, SpawnedSpeechSynthesis};
use crate::synthesis::{NumberBits, SynthesisVoiceGender};
use crate::ws::{
    accept_frame, accept_message, after_sending, send_notifications, send_transcriptions, WsAction,
    WsContent, WsError, WsFrame, WsMessage, WsNotification, WsStep,
};

verus! {

/// A hangup is sent to the handler of the call that the message names, and to no other. Nothing else
/// happens.
pub proof fn hangup_reaches_the_call_it_names(
    database: &mut HandlerDatabase,
    synthesis: &mut Option<SpawnedSpeechSynthesis>,
    id: u128,
    invalid: Option<WsError>,
)
    requires
        call_ensures(
            accept_message,
            (database, synthesis, Ok(WsMessage { id, data: WsAction::Hangup })),
            invalid,
        ),
    ensures
        invalid is None,
        only_sent(old(database)@, final(database)@, id, MessageHandlerActionView::Hangup),
        *final(synthesis) == *old(synthesis),
{
    lemma_only_sent(old(database)@, final(database)@, id, MessageHandlerActionView::Hangup);
}

/// A speech recognition config is sent, as the client gives it, to the handler of the call that the
/// message names, and to no other. What the client does not give is disabled. Nothing else happens.
pub proof fn config_reaches_the_call_it_names(
    database: &mut HandlerDatabase,
    synthesis: &mut Option<SpawnedSpeechSynthesis>,
    id: u128,
    options: RecognitionOptions,
    invalid: Option<WsError>,
)
    requires
        call_ensures(
            accept_message,
            (database, synthesis, Ok(WsMessage { id, data: WsAction::RecognitionConfig(options) })),
            invalid,
        ),
    ensures
        invalid is None,
        only_sent(
            old(database)@,
            final(database)@,
            id,
            MessageHandlerActionView::RecognitionConfig(
                SpeechRecognitionConfigView {
                    language: options.language@,
                    profanity_filter: options.profanity_filter == Some(true),
                    punctuation: options.punctuation == Some(true),
                },
            ),
        ),
        *final(synthesis) == *old(synthesis),
{
    lemma_only_sent(
        old(database)@,
        final(database)@,
        id,
        MessageHandlerActionView::RecognitionConfig(
            SpeechRecognitionConfigView {
                language: options.language@,
                profanity_filter: options.profanity_filter == Some(true),
                punctuation: options.punctuation == Some(true),
            },
        ),
    );
}

/// Speech that a client asks for is sent to speech synthesis with all that the client gives, for the
/// call that the message names. The gender is the one that its name stands for. No handler is sent
/// anything.
pub proof fn speech_reaches_synthesis(
    database: &mut HandlerDatabase,
    synthesis: &mut Option<SpawnedSpeechSynthesis>,
    id: u128,
    ssml: String,
    language_code: String,
    gender: Option<String>,
    speaking_rate: Option<NumberBits>,
    pitch: Option<NumberBits>,
    invalid: Option<WsError>,
)
    requires
        call_ensures(
            accept_message,
            (
                database,
                synthesis,
                Ok(
                    WsMessage {
                        id,
                        data: WsAction::Synthesize {
                            ssml,
                            language_code,
                            gender,
                            speaking_rate,
                            pitch,
                        },
                    },
                ),
            ),
            invalid,
        ),
    ensures
        invalid is None,
        *old(synthesis) matches Some(before) ==> {
            &&& *final(synthesis) matches Some(after)
            &&& after.receivers() == before.receivers()
            &&& after.sent().len() == before.sent().len() + 1
            &&& after.sent().drop_last() == before.sent()
            &&& after.sent().last().0.id == id
            &&& after.sent().last().0.ssml == ssml@
            &&& after.sent().last().0.language_code == language_code@
            &&& after.sent().last().0.speaking_rate == speaking_rate
            &&& after.sent().last().0.pitch == pitch
            &&& match gender {
                None => after.sent().last().0.gender is None,
                Some(name) => after.sent().last().0.gender matches Some(asked) && stands_for(
                    name@,
                    asked,
                ),
            }
        },
        *old(synthesis) is None ==> *final(synthesis) is None,
        same_handlers(old(database)@, final(database)@),
        same_queues(old(database)@, final(database)@),
{
    if let (Some(before), Some(after)) = (*old(synthesis), *final(synthesis)) {
        assert(after.sent().drop_last() =~= before.sent());
        if let Some(name) = gender {
            lemma_names_differ();
        }
    }
}

/// The gender that a name stands for: any other name than these three stands for no preference.
pub open spec fn stands_for(name: Seq<char>, gender: SynthesisVoiceGender) -> bool {
    &&& gender == SynthesisVoiceGender::Male <==> name == "male"@
    &&& gender == SynthesisVoiceGender::Female <==> name == "female"@
    &&& gender == SynthesisVoiceGender::Neutral <==> name == "neutral"@
}

/// The names of genders are different ones.
proof fn lemma_names_differ()
    ensures
        "male"@ != "female"@,
        "male"@ != "neutral"@,
        "female"@ != "neutral"@,
{
    reveal_strlit("male");
    reveal_strlit("female");
    reveal_strlit("neutral");
    assert("female"@[0] == 'f');
    assert("neutral"@[0] == 'n');
    assert("male"@.len() == 4);
    assert("female"@.len() == 6);
    assert("neutral"@.len() == 7);
}

/// A name stands for its gender.
pub proof fn names_stand_for_genders(name: &str, gender: SynthesisVoiceGender)
    requires
        call_ensures(<SynthesisVoiceGender as From<&str>>::from, (name,), gender),
    ensures
        stands_for(name@, gender),
{
    lemma_names_differ();
}

/// A message that only EMS sends, or that is invalid, has no effect. An error is reported as it is,
/// and nothing else is.
pub proof fn other_messages_have_no_effect(
    database: &mut HandlerDatabase,
    synthesis: &mut Option<SpawnedSpeechSynthesis>,
    received: Result<WsMessage, WsError>,
    invalid: Option<WsError>,
)
    requires
        call_ensures(accept_message, (database, synthesis, received), invalid),
    ensures
        forall|error: WsError|
            received == Err::<WsMessage, WsError>(error) <==> invalid == Some(error),
        (received is Err || (received matches Ok(message) && (message.data is Transcription
            || message.data is RecognitionConfigRequest))) ==> {
            &&& same_handlers(old(database)@, final(database)@)
            &&& same_queues(old(database)@, final(database)@)
            &&& *final(synthesis) == *old(synthesis)
        },
{
}

/// Texts and binary messages are read as they are, messages without content are skipped, and a failure
/// of the connection is reported with its reason.
pub proof fn content_is_read(received: Result<WsFrame, String>, step: WsStep)
    requires
        call_ensures(accept_frame, (received,), step),
    ensures
        forall|text: String|
            received == Ok::<WsFrame, String>(WsFrame::Text(text)) <==> step == WsStep::Read(
                WsContent::Text(text),
            ),
        forall|bytes: Vec<u8>|
            received == Ok::<WsFrame, String>(WsFrame::Binary(bytes)) <==> step == WsStep::Read(
                WsContent::Binary(bytes),
            ),
        received == Ok::<WsFrame, String>(WsFrame::Control) <==> step == WsStep::Skip,
        forall|reason: String|
            received == Err::<WsFrame, String>(reason) <==> step == WsStep::Fail(
                WsError::InternalError(reason),
            ),
{
}

/// A frame has content exactly if it is a text or a binary message, and that is its content.
pub proof fn frames_have_content(frame: WsFrame, has: bool, content: Result<WsContent, WsError>)
    requires
        call_ensures(WsFrame::has_content, (&frame,), has),
        call_ensures(WsFrame::content, (frame,), content),
    ensures
        has <==> content is Ok,
        match frame {
            WsFrame::Text(text) => content == Ok::<WsContent, WsError>(WsContent::Text(text)),
            WsFrame::Binary(bytes) => content == Ok::<WsContent, WsError>(
                WsContent::Binary(bytes),
            ),
            WsFrame::Control => content == Err::<WsContent, WsError>(
                WsError::UnsupportedMessageType,
            ),
        },
{
}

/// The client gets the transcription that has waited longest, all of it and under its call, if any
/// waits. The others wait on.
pub proof fn client_gets_the_oldest_transcription(
    database: &mut HandlerDatabase,
    message: Option<WsMessage>,
)
    requires
        call_ensures(send_transcriptions, (database,), message),
    ensures
        message is Some <==> old(database)@.transcriptions.len() > 0,
        message matches Some(message) ==> {
            &&& message.id == old(database)@.transcriptions.first().0
            &&& message.data matches WsAction::Transcription(text)
            &&& text@ == old(database)@.transcriptions.first().1
            &&& final(database)@.transcriptions == old(database)@.transcriptions.skip(1)
        },
        message is None ==> final(database)@.transcriptions.len() == 0,
        final(database)@.notifications == old(database)@.notifications,
        same_handlers(old(database)@, final(database)@),
{
    if message is Some {
        assert(final(database)@.transcriptions =~= old(database)@.transcriptions.skip(1));
    }
}

/// The client gets the notification that has waited longest, under its call, if any waits. The others
/// wait on.
pub proof fn client_gets_the_oldest_notification(
    database: &mut HandlerDatabase,
    message: Option<WsMessage>,
)
    requires
        call_ensures(send_notifications, (database,), message),
    ensures
        message is Some <==> old(database)@.notifications.len() > 0,
        message matches Some(message) ==> {
            &&& old(database)@.notifications.first() == WsNotification::RecognitionConfigRequest(
                message.id,
            )
            &&& message.data is RecognitionConfigRequest
            &&& final(database)@.notifications == old(database)@.notifications.skip(1)
        },
        message is None ==> final(database)@.notifications.len() == 0,
        final(database)@.transcriptions == old(database)@.transcriptions,
        same_handlers(old(database)@, final(database)@),
{
    if message is Some {
        assert(final(database)@.notifications =~= old(database)@.notifications.skip(1));
    }
}

/// Sending goes on as long as it succeeds, and ends with the reason for which it fails.
pub proof fn sending_ends_with_a_failure(result: Result<(), String>, end: Option<WsError>)
    requires
        call_ensures(after_sending, (result,), end),
    ensures
        end is None <==> result is Ok,
        forall|reason: String|
            result == Err::<(), String>(reason) <==> end == Some(WsError::InternalError(reason)),
{
}

/// The text of an error says what has failed, and tells the reason in full.
pub proof fn error_texts(error: WsError, text: String)
    requires
        call_ensures(WsError::describe, (&error,), text),
    ensures
        text@ == match error {
            WsError::InvalidMessageReceived(reason) => "Invalid message received: "@ + reason@,
            WsError::InternalError(reason) => "Internal WebSocket error: "@ + reason@,
            WsError::UnsupportedMessageType => "Unsupported WebSocket message type"@,
        },
{
}

/// A client that asks for a hangup gets the call terminated: what its message sends to the handler of
/// the call is carried out as a terminating message.
pub proof fn hangup_terminates_the_call(
    database: &mut HandlerDatabase,
    synthesis: &mut Option<SpawnedSpeechSynthesis>,
    id: u128,
    invalid: Option<WsError>,
    action: MessageHandlerAction,
    awaits_config: &mut bool,
    result: Result<ActionStep, ServerError>,
)
    requires
        old(database)@.handlers.contains_key(id),
        call_ensures(
            accept_message,
            (database, synthesis, Ok(WsMessage { id, data: WsAction::Hangup })),
            invalid,
        ),
        action@ == final(database)@.handlers[id].sent.last().0,
        call_ensures(
            IdentifiableMessageHandler::handle_action,
            (awaits_config, action),
            result,
        ),
    ensures
        result matches Ok(ActionStep::Write(frame)) && frame@ == seq![0u8, 0u8, 0u8],
{
    hangup_reaches_the_call_it_names(database, synthesis, id, invalid);
    action_is_carried_out(awaits_config, action, result);
}

/// A client that gives a config in time gets speech recognition with this config: what its message
/// sends to the handler of the call is handed over, and what is handed over is used.
pub proof fn config_of_the_client_is_used<'c>(
    database: &mut HandlerDatabase,
    synthesis: &mut Option<SpawnedSpeechSynthesis>,
    id: u128,
    options: RecognitionOptions,
    invalid: Option<WsError>,
    action: MessageHandlerAction,
    awaits_config: &mut bool,
    provided: SpeechRecognitionConfig,
    config: &'c Config,
    task: RecognitionTask<'c>,
)
    requires
        old(database)@.handlers.contains_key(id),
        call_ensures(
            accept_message,
            (database, synthesis, Ok(WsMessage { id, data: WsAction::RecognitionConfig(options) })),
            invalid,
        ),
        action@ == final(database)@.handlers[id].sent.last().0,
        *old(awaits_config),
        call_ensures(
            IdentifiableMessageHandler::handle_action,
            (awaits_config, action),
            Ok(ActionStep::Provide(provided)),
        ),
        call_ensures(prepare_recognition_service, (id, config, Some(provided)), Some(task)),
    ensures
        says(task.config.recognition_config, options),
{
    config_reaches_the_call_it_names(database, synthesis, id, options, invalid);
    action_is_carried_out(awaits_config, action, Ok(ActionStep::Provide(provided)));
}

} // verus!
