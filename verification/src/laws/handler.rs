use vstd::prelude::*;

use flume::Receiver;

use crate::action::{MessageHandlerAction, MessageHandlerActionView};
use crate::config::{Config, SpeechRecognitionDriver};
use crate::db::{HandlerDatabase, HandlerDatabaseView};
use crate::handler::{
    chunk, play, playback, playback_frames_the_chunks, prepare_recognition_service,
    send_pending, write_audio, ActionEvent, ActionStep, AnonymousMessageHandler, AnonymousStep,
    IdentifiableMessageHandler, MessageStep, CHUNK_SIZE, TICK_MILLIS,
};
use crate::laws::config::same_config;
use crate::laws::database::{lemma_only_sent, only_sent, same_but_for, same_handlers, same_queues};
use crate::message::{be_bytes, Message, MessageError};
use crate::recognition::{
    SpeechRecognitionConfig, SpeechRecognitionRequest, SpeechRecognitionResponse,
    SpeechRecognitionSink,
};
use crate::server::{IoErrorKind, ServerError};
use crate::service::{RecognitionTask, SpawnedSpeechRecognition};
use crate::ws::WsNotification;

verus! {

/// Do frames play audio: are they, without their headers, the whole audio from its first byte to its
/// last, and then fewer zeros than one chunk takes?
pub open spec fn plays(frames: Seq<Vec<u8>>, audio: Seq<u8>) -> bool {
    &&& audio.len() <= frames.len() * 320 < audio.len() + 320
    &&& forall|index: int|
        0 <= index < frames.len() ==> {
            &&& (#[trigger] frames[index])@.len() == 323
            &&& frames[index]@[0] == 0x10
            &&& frames[index]@[1] == 1
            &&& frames[index]@[2] == 64
        }
    &&& forall|index: int, offset: int|
        0 <= index < frames.len() && 0 <= offset < 320 ==> (#[trigger] frames[index]@[3 + offset])
            == if index * 320 + offset < audio.len() {
            audio[index * 320 + offset]
        } else {
            0
        }
}

/// What [`playback`] says of frames, byte for byte.
proof fn lemma_plays(frames: Seq<Vec<u8>>, audio: Seq<u8>)
    requires
        frames.map_values(|frame: Vec<u8>| frame@) == playback(audio),
    ensures
        plays(frames, audio),
{
    let bytes = frames.map_values(|frame: Vec<u8>| frame@);
    playback_frames_the_chunks(audio);
    assert(bytes.len() == frames.len());
    assert forall|index: int| 0 <= index < frames.len() implies (#[trigger] frames[index])@
        == seq![0x10u8, 0x01u8, 0x40u8] + chunk(audio, index) by {
        assert(bytes[index] == frames[index]@);
        assert(playback(audio)[index] == bytes[index]);
    }
    assert forall|index: int, offset: int|
        0 <= index < frames.len() && 0 <= offset < 320 implies (#[trigger] frames[index]@[3
        + offset]) == if index * 320 + offset < audio.len() {
        audio[index * 320 + offset]
    } else {
        0
    } by {
        assert(frames[index]@[3 + offset] == chunk(audio, index)[offset]);
    }
}

/// Playing audio always succeeds, and loses none of it.
pub proof fn audio_is_played_in_full(audio: Vec<u8>, result: Result<Vec<Vec<u8>>, ServerError>)
    requires
        call_ensures(play, (&audio,), result),
    ensures
        result matches Ok(frames) && plays(frames@, audio@),
{
    if let Ok(frames) = result {
        lemma_plays(frames@, audio@);
    }
}

/// A chunk is written with its length and all its bytes, unless it is too long for a frame.
pub proof fn chunk_is_written(chunk: Vec<u8>, result: Result<Vec<u8>, ServerError>)
    requires
        call_ensures(write_audio, (chunk,), result),
    ensures
        chunk@.len() <= 65535 ==> {
            &&& result matches Ok(frame)
            &&& frame@.len() == chunk@.len() + 3
            &&& frame@[0] == 0x10 && frame@[1] * 256 + frame@[2] == chunk@.len()
            &&& frame@.skip(3) == chunk@
        },
        chunk@.len() > 65535 ==> result == Err::<Vec<u8>, ServerError>(
            ServerError::AudioSocketError(MessageError::LengthIsTooLarge),
        ),
{
    reveal_with_fuel(be_bytes, 3);
    if let Ok(frame) = result {
        assert(frame@.skip(3) =~= chunk@);
    }
}

/// A handler without an identifier is upgraded by an identifier, with this identifier, ends with an
/// error, and waits on after anything else.
pub proof fn anonymous_handler_waits_for_an_identifier(
    handler: AnonymousMessageHandler<'_>,
    received: Result<Message, ServerError>,
    step: AnonymousStep,
)
    requires
        call_ensures(AnonymousMessageHandler::listen, (&handler, received), step),
    ensures
        forall|id: u128|
            received == Ok::<Message, ServerError>(Message::Identifier(id)) <==> step
                == AnonymousStep::Upgrade(id),
        forall|error: ServerError|
            received == Err::<Message, ServerError>(error) <==> step == AnonymousStep::Fail(error),
        step == AnonymousStep::Wait <==> (received matches Ok(message) && !(message is Identifier)),
{
}

/// An upgraded handler is registered under the identifier that it was upgraded with, and gets its
/// actions from the channel that is registered, through which nothing was sent yet. It keeps the
/// config. No other handler and no queue is touched.
pub proof fn upgraded_handler_is_registered<'c>(
    config: &'c Config,
    anonymous: AnonymousMessageHandler<'c>,
    id: u128,
    database: &mut HandlerDatabase,
    handler: IdentifiableMessageHandler<'c>,
    channel: &Receiver<MessageHandlerAction>,
)
    requires
        call_ensures(AnonymousMessageHandler::<'c>::new, (config,), anonymous),
        call_ensures(AnonymousMessageHandler::<'c>::upgrade, (anonymous, id, database), handler),
        call_ensures(IdentifiableMessageHandler::<'c>::channel, (&handler,), channel),
    ensures
        final(database)@.handlers.contains_key(id),
        final(database)@.handlers[id].receivers.contains(*channel),
        final(database)@.handlers[id].sent.len() == 0,
        handler.config() == config,
        same_but_for(old(database)@, final(database)@, id),
        same_queues(old(database)@, final(database)@),
{
}

/// A new handler is registered, asks clients for the config of its own call as soon as it listens, and
/// is the one that is removed when it is closed.
pub proof fn handler_keeps_its_identifier<'c>(
    id: u128,
    config: &'c Config,
    database: &mut HandlerDatabase,
    handler: IdentifiableMessageHandler<'c>,
    channel: &Receiver<MessageHandlerAction>,
    listening: &mut HandlerDatabase,
    closing: &mut HandlerDatabase,
)
    requires
        call_ensures(IdentifiableMessageHandler::<'c>::new, (id, config, database), handler),
        call_ensures(IdentifiableMessageHandler::<'c>::channel, (&handler,), channel),
        call_ensures(IdentifiableMessageHandler::<'c>::listen, (&handler, listening), ()),
        call_ensures(IdentifiableMessageHandler::<'c>::close, (handler, closing), ()),
    ensures
        final(database)@.handlers.contains_key(id),
        final(database)@.handlers[id].receivers.contains(*channel),
        final(database)@.handlers[id].sent.len() == 0,
        same_but_for(old(database)@, final(database)@, id),
        same_queues(old(database)@, final(database)@),
        final(listening)@.notifications.len() == old(listening)@.notifications.len() + 1,
        final(listening)@.notifications.drop_last() == old(listening)@.notifications,
        final(listening)@.notifications.last() == WsNotification::RecognitionConfigRequest(id),
        final(listening)@.transcriptions == old(listening)@.transcriptions,
        same_handlers(old(listening)@, final(listening)@),
        !final(closing)@.handlers.contains_key(id),
        same_but_for(old(closing)@, final(closing)@, id),
        same_queues(old(closing)@, final(closing)@),
{
    assert(final(listening)@.notifications.drop_last() =~= old(listening)@.notifications);
}

/// That the client has gone away, for whatever reason, is no error. Every other error is handed on.
pub proof fn disconnect_is_no_error(
    result: Result<(), ServerError>,
    outcome: Result<(), ServerError>,
    closed: ServerError,
)
    requires
        call_ensures(IdentifiableMessageHandler::finish, (result,), outcome),
        call_ensures(IdentifiableMessageHandler::channel_closed, (), closed),
    ensures
        outcome is Ok <==> (result is Ok || result matches Err(ServerError::ClientDisconnected(_))),
        outcome matches Err(error) ==> result == Err::<(), ServerError>(error),
        closed == ServerError::ClientDisconnected(None),
{
}

/// Does a connection go on after a message, and how does it end if it does not?
pub open spec fn goes_on(received: Result<Message, ServerError>, step: MessageStep) -> bool {
    &&& step == MessageStep::IdentifierIgnored <==> (received matches Ok(Message::Identifier(_)))
    &&& step == MessageStep::Continue <==> (received matches Ok(message) && !(message is Identifier)
        && !(message is Terminate))
    &&& received == Ok::<Message, ServerError>(Message::Terminate) ==> step == MessageStep::Stop(
        ServerError::ClientDisconnected(None),
    )
    &&& received matches Err(error) ==> match error {
        ServerError::IoError(error) => if error.kind == IoErrorKind::Other {
            step == MessageStep::Stop(ServerError::IoError(error))
        } else {
            step == MessageStep::Stop(ServerError::ClientDisconnected(Some(error)))
        },
        _ => step == MessageStep::Stop(error),
    }
}

/// Was audio, all of it, sent back to the handler itself if audio is looped back, and nothing else?
pub open spec fn loops_back(
    id: u128,
    loopback: bool,
    audio: Seq<u8>,
    before: HandlerDatabaseView,
    after: HandlerDatabaseView,
) -> bool {
    if loopback {
        only_sent(before, after, id, MessageHandlerActionView::Play(audio))
    } else {
        same_handlers(before, after) && same_queues(before, after)
    }
}

/// Every piece of audio of a call, whatever its bytes and its length, is sent to speech recognition as
/// it is, behind all that was sent before. It is looped back if audio is looped back. The connection
/// goes on.
pub proof fn audio_is_recognized(
    id: u128,
    config: &Config,
    database: &mut HandlerDatabase,
    recognition: &mut Option<SpawnedSpeechRecognition>,
    audio: Vec<u8>,
    loopback: bool,
    step: MessageStep,
)
    requires
        call_ensures(Config::loopback_audio, (config,), loopback),
        call_ensures(
            IdentifiableMessageHandler::handle_message,
            (id, config, database, recognition, Ok(Message::Audio(Some(audio)))),
            step,
        ),
    ensures
        step == MessageStep::Continue,
        *old(recognition) matches Some(before) ==> {
            &&& *final(recognition) matches Some(after)
            &&& after.receivers() == before.receivers()
            &&& after.sent().len() == before.sent().len() + 1
            &&& after.sent().drop_last() == before.sent()
            &&& after.sent().last().0 == audio@
        },
        *old(recognition) is None ==> *final(recognition) is None,
        loops_back(id, loopback, audio@, old(database)@, final(database)@),
{
    if let (Some(before), Some(after)) = (*old(recognition), *final(recognition)) {
        assert(after.sent().drop_last() =~= before.sent());
    }
    if loopback {
        lemma_only_sent(
            old(database)@,
            final(database)@,
            id,
            MessageHandlerActionView::Play(audio@),
        );
    }
}

/// Any other message has no effect but on the connection.
pub proof fn other_messages_have_no_effect(
    id: u128,
    config: &Config,
    database: &mut HandlerDatabase,
    recognition: &mut Option<SpawnedSpeechRecognition>,
    received: Result<Message, ServerError>,
    step: MessageStep,
)
    requires
        call_ensures(
            IdentifiableMessageHandler::handle_message,
            (id, config, database, recognition, received),
            step,
        ),
    ensures
        goes_on(received, step),
        !(received matches Ok(Message::Audio(Some(_)))) ==> {
            &&& *final(recognition) == *old(recognition)
            &&& same_handlers(old(database)@, final(database)@)
            &&& same_queues(old(database)@, final(database)@)
        },
{
}

/// While the config of speech recognition is awaited, every piece of audio of a call, whatever its
/// bytes and its length, waits as it is behind all that waits already. It is looped back if audio is
/// looped back. The connection goes on.
pub proof fn audio_waits_for_recognition(
    id: u128,
    config: &Config,
    database: &mut HandlerDatabase,
    pending: &mut Vec<SpeechRecognitionRequest>,
    audio: Vec<u8>,
    loopback: bool,
    step: MessageStep,
)
    requires
        call_ensures(Config::loopback_audio, (config,), loopback),
        call_ensures(
            IdentifiableMessageHandler::handle_awaiting,
            (id, config, database, pending, Ok(Message::Audio(Some(audio)))),
            step,
        ),
    ensures
        step == MessageStep::Continue,
        final(pending)@.len() == old(pending)@.len() + 1,
        final(pending)@.drop_last() == old(pending)@,
        final(pending)@.last().audio@ == audio@,
        loops_back(id, loopback, audio@, old(database)@, final(database)@),
{
    assert(final(pending)@.drop_last() =~= old(pending)@);
    if loopback {
        lemma_only_sent(
            old(database)@,
            final(database)@,
            id,
            MessageHandlerActionView::Play(audio@),
        );
    }
}

/// While the config of speech recognition is awaited, any other message has no effect but on the
/// connection.
pub proof fn other_messages_do_not_wait(
    id: u128,
    config: &Config,
    database: &mut HandlerDatabase,
    pending: &mut Vec<SpeechRecognitionRequest>,
    received: Result<Message, ServerError>,
    step: MessageStep,
)
    requires
        call_ensures(
            IdentifiableMessageHandler::handle_awaiting,
            (id, config, database, pending, received),
            step,
        ),
    ensures
        goes_on(received, step),
        !(received matches Ok(Message::Audio(Some(_)))) ==> {
            &&& final(pending)@ == old(pending)@
            &&& same_handlers(old(database)@, final(database)@)
            &&& same_queues(old(database)@, final(database)@)
        },
{
}

/// All audio that has waited is sent to speech recognition, oldest first, each piece as it is, behind
/// what was sent before.
pub proof fn waiting_audio_is_recognized(
    recognition: &mut Option<SpawnedSpeechRecognition>,
    pending: Vec<SpeechRecognitionRequest>,
)
    requires
        call_ensures(send_pending, (recognition, pending), ()),
    ensures
        *old(recognition) matches Some(before) ==> {
            &&& *final(recognition) matches Some(after)
            &&& after.receivers() == before.receivers()
            &&& after.sent().len() == before.sent().len() + pending@.len()
            &&& after.sent().take(before.sent().len() as int) == before.sent()
            &&& forall|i: int|
                0 <= i < pending@.len() ==> (#[trigger] after.sent()[before.sent().len() + i]).0
                    == pending@[i].audio@
        },
        *old(recognition) is None ==> *final(recognition) is None,
{
    if let (Some(before), Some(after)) = (*old(recognition), *final(recognition)) {
        let count = before.sent().len();
        assert(after.audio().len() == after.sent().len());
        assert(after.sent().take(count as int) =~= before.sent());
        assert forall|i: int| 0 <= i < pending@.len() implies (#[trigger] after.sent()[count + i]).0
            == pending@[i].audio@ by {
            assert(after.audio()[count + i] == after.sent()[count + i].0);
        }
    }
}

/// Is this the step that an action asks for, if a config is awaited or not, and is a config awaited
/// afterwards exactly as long as none has come?
pub open spec fn is_step_for(
    action: MessageHandlerAction,
    awaited: bool,
    step: ActionStep,
    awaited_after: bool,
) -> bool {
    match action {
        MessageHandlerAction::Hangup => {
            &&& step matches ActionStep::Write(frame)
            &&& frame@ == seq![0u8, 0u8, 0u8]
            &&& awaited_after == awaited
        },
        MessageHandlerAction::Play(audio) => {
            &&& step matches ActionStep::Play(frames)
            &&& plays(frames@, audio@)
            &&& awaited_after == awaited
        },
        MessageHandlerAction::RecognitionConfig(config) => {
            &&& awaited ==> (step matches ActionStep::Provide(provided) && same_config(
                provided,
                config,
            ))
            &&& !awaited ==> step == ActionStep::Ignore
            &&& !awaited_after
        },
    }
}

/// Every action is carried out: a hangup is written as a terminating message, audio is played in full,
/// and a config is handed over if it is awaited.
pub proof fn action_is_carried_out(
    awaits_config: &mut bool,
    action: MessageHandlerAction,
    result: Result<ActionStep, ServerError>,
)
    requires
        call_ensures(
            IdentifiableMessageHandler::handle_action,
            (awaits_config, action),
            result,
        ),
    ensures
        result matches Ok(step) && is_step_for(
            action,
            *old(awaits_config),
            step,
            *final(awaits_config),
        ),
{
    reveal_with_fuel(be_bytes, 3);
    if let Ok(step) = result {
        if let ActionStep::Write(frame) = step {
            assert(action is Hangup ==> frame@ =~= seq![0u8, 0u8, 0u8]);
        }
        if let (ActionStep::Play(frames), MessageHandlerAction::Play(audio)) = (step, action) {
            lemma_plays(frames@, audio@);
        }
    }
}

/// Listening carries out every action that comes, goes on after what was written, and ends with the
/// error of a failed write, or as a disconnect when no more actions will come. Only an action can end
/// the wait for a config.
pub proof fn listening_carries_actions_out(
    awaits_config: &mut bool,
    event: ActionEvent,
    step: ActionStep,
)
    requires
        call_ensures(IdentifiableMessageHandler::action_listen, (awaits_config, event), step),
    ensures
        match event {
            ActionEvent::Received(action) => is_step_for(
                action,
                *old(awaits_config),
                step,
                *final(awaits_config),
            ),
            ActionEvent::Written(Ok(_)) => {
                &&& step == ActionStep::Ignore
                &&& *final(awaits_config) == *old(awaits_config)
            },
            ActionEvent::Written(Err(error)) => step == ActionStep::Stop(
                ServerError::IoError(error),
            ),
            ActionEvent::Closed => step == ActionStep::Stop(ServerError::ClientDisconnected(None)),
        },
{
    reveal_with_fuel(be_bytes, 3);
    if let ActionEvent::Received(action) = event {
        if let ActionStep::Write(frame) = step {
            assert(action is Hangup ==> frame@ =~= seq![0u8, 0u8, 0u8]);
        }
        if let (ActionStep::Play(frames), MessageHandlerAction::Play(audio)) = (step, action) {
            lemma_plays(frames@, audio@);
        }
    }
}

/// The config that a client gave in time is the one that speech recognition of a call uses, whether
/// the application has a fallback or not. Only without it the fallback counts, and only without both
/// the default for English. There is speech recognition exactly if a driver is configured.
pub proof fn config_of_the_client_comes_first<'c>(
    id: u128,
    config: &'c Config,
    received: Option<SpeechRecognitionConfig>,
    fallback: &Option<SpeechRecognitionConfig>,
    driver: &Option<SpeechRecognitionDriver>,
    task: Option<RecognitionTask<'c>>,
)
    requires
        call_ensures(Config::recognition_driver, (config,), driver),
        call_ensures(prepare_recognition_service, (id, config, received), task),
        call_ensures(Config::fallback_recognition_config, (config,), fallback),
    ensures
        task is Some <==> *driver is Some,
        task matches Some(task) ==> {
            let used = task.config.recognition_config;
            &&& received matches Some(given) ==> same_config(used, given)
            &&& received is None ==> match *fallback {
                Some(fallback) => same_config(used, fallback),
                None => used.language@ == "en-US"@ && !used.profanity_filter && !used.punctuation,
            }
            &&& task.config.application_config == config
        },
{
}

/// Speech recognition that is set up has been sent nothing, gets what will be sent to it, and its
/// results become transcriptions of the call that it was set up for.
pub proof fn prepared_recognition_belongs_to_its_call<'c>(
    id: u128,
    config: &'c Config,
    received: Option<SpeechRecognitionConfig>,
    task: RecognitionTask<'c>,
    database: &mut HandlerDatabase,
    response: SpeechRecognitionResponse,
)
    requires
        call_ensures(prepare_recognition_service, (id, config, received), Some(task)),
        call_ensures(SpeechRecognitionSink::start_send, (&task.sink, database, response), ()),
    ensures
        task.spawned.sent().len() == 0,
        task.spawned.receivers().contains(task.requests),
        final(database)@.transcriptions.last() == (id, response.transcription@),
        final(database)@.transcriptions.drop_last() == old(database)@.transcriptions,
{
    assert(final(database)@.transcriptions.drop_last() =~= old(database)@.transcriptions);
}

/// A chunk of telephone audio, 8000 samples a second and two bytes each, lasts exactly one tick: audio
/// is written as fast as it is heard.
pub proof fn chunk_lasts_one_tick()
    ensures
        CHUNK_SIZE * 1000 == 8000 * 2 * TICK_MILLIS,
        CHUNK_SIZE == 320,
{
}

} // verus!
