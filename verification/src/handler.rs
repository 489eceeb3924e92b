use vstd::prelude::*;
use vstd::slice::{slice_subrange, slice_to_vec};

use flume::Receiver;

use crate::channel::action_channel;
use crate::config::{recognition_config_view, Config};
use crate::db::{actions_are_sent_in_order, mailbox, HandlerDatabase, HandlerDatabaseView};
use crate::message::{be_bytes, encode, Message, MessageError, MessageView, MAX_PAYLOAD};
use crate::recognition::{
    default_recognition_config, SpeechRecognitionConfig, SpeechRecognitionConfigView,
    SpeechRecognitionRequest, SpeechRecognitionServiceConfig,
};
use crate::server::{IoError, ServerError};
use crate::service::{
    pending_audio, spawn_speech_recognition, RecognitionTask, SpawnedSpeechRecognition,
};
use crate::ws::WsNotification;

pub use crate::action::{MessageHandlerAction, MessageHandlerActionView};

verus! {

/// Exact chunk size to be used when sending or receiving audio using AudioSocket.
pub const CHUNK_SIZE: usize = 320;

/// Milliseconds between each AudioSocket audio response tick.
///
/// See <https://github.com/CyCoreSystems/audiosocket/blob/807c189aae2b651b779b1e2ce1a17e1ecd364973/chunk.go#L23> for more details.
pub const TICK_MILLIS: u64 = 20;

/// How many chunks it takes to play audio of a length.
pub open spec fn chunk_count(length: nat) -> nat {
    (length + CHUNK_SIZE - 1) as nat / CHUNK_SIZE as nat
}

/// A chunk of audio. Where the audio ends, the last chunk is filled up with zeros.
pub open spec fn chunk(audio: Seq<u8>, index: int) -> Seq<u8> {
    Seq::new(
        CHUNK_SIZE as nat,
        |i: int|
            if index * CHUNK_SIZE + i < audio.len() {
                audio[index * CHUNK_SIZE + i]
            } else {
                0
            },
    )
}

/// The frames that play audio, one for each chunk.
pub open spec fn playback(audio: Seq<u8>) -> Seq<Seq<u8>> {
    Seq::new(
        chunk_count(audio.len()),
        |index: int| MessageView::Audio(Some(chunk(audio, index))).frame(),
    )
}

/// Write the frame of one chunk of audio.
pub fn write_audio(chunk: Vec<u8>) -> (result: Result<Vec<u8>, ServerError>)
    ensures
        match result {
            Ok(bytes) => {
                &&& chunk@.len() <= MAX_PAYLOAD
                &&& bytes@ == MessageView::Audio(Some(chunk@)).frame()
            },
            Err(error) => {
                &&& chunk@.len() > MAX_PAYLOAD
                &&& error == ServerError::AudioSocketError(MessageError::LengthIsTooLarge)
            },
        },
{
    match encode(&Message::Audio(Some(chunk))) {
        Ok(bytes) => Ok(bytes),
        Err(error) => Err(ServerError::AudioSocketError(error)),
    }
}

/// Write the frames that play audio.
pub fn play(audio: &Vec<u8>) -> (result: Result<Vec<Vec<u8>>, ServerError>)
    ensures
        result matches Ok(frames) && frames@.map_values(|frame: Vec<u8>| frame@) == playback(
            audio@,
        ),
{
    let mut frames: Vec<Vec<u8>> = Vec::new();
    let mut start: usize = 0;
    while audio.len() - start >= CHUNK_SIZE
        invariant
            start == frames@.len() * CHUNK_SIZE,
            start <= audio@.len(),
            forall|i: int|
                0 <= i < frames@.len() ==> (#[trigger] frames@[i])@ == MessageView::Audio(
                    Some(chunk(audio@, i)),
                ).frame(),
        decreases audio@.len() - start,
    {
        let full = slice_to_vec(slice_subrange(audio.as_slice(), start, start + CHUNK_SIZE));
        assert(full@ =~= chunk(audio@, frames@.len() as int));
        frames.push(write_audio(full)?);
        start = start + CHUNK_SIZE;
    }
    if start < audio.len() {
        let mut remainder = slice_to_vec(
            slice_subrange(audio.as_slice(), start, audio.len()),
        );
        let ghost rest = remainder@;
        remainder.resize(CHUNK_SIZE, 0);
        assert forall|i: int| 0 <= i < CHUNK_SIZE implies remainder@[i] == if i < rest.len() {
            rest[i]
        } else {
            0
        } by {
            if i < rest.len() {
                assert(remainder@.subrange(0, rest.len() as int)[i] == rest[i]);
            } else {
                assert(cloned::<u8>(0, remainder@[i]));
            }
        }
        assert(remainder@ =~= chunk(audio@, frames@.len() as int));
        frames.push(write_audio(remainder)?);
    }
    assert(frames@.map_values(|frame: Vec<u8>| frame@) =~= playback(audio@));
    Ok(frames)
}

/// What to do after a message for a handler without an identifier.
pub enum AnonymousStep {
    /// Wait for the next message.
    Wait,

    /// Upgrade the handler to an [`IdentifiableMessageHandler`] with this identifier.
    Upgrade(u128),

    /// End the connection.
    Fail(ServerError),
}

/// What comes after a message for a handler without an identifier. Only an identifier has an effect.
pub open spec fn anonymous_step(received: Result<Message, ServerError>) -> AnonymousStep {
    match received {
        Ok(Message::Identifier(id)) => AnonymousStep::Upgrade(id),
        Ok(_) => AnonymousStep::Wait,
        Err(error) => AnonymousStep::Fail(error),
    }
}

/// Message handler, that doesn't have any unique identifier.
///
/// Ignores all messages, until upgraded to [`IdentifiableMessageHandler`].
pub struct AnonymousMessageHandler<'c> {
    config: &'c Config,
}

impl<'c> AnonymousMessageHandler<'c> {
    /// Config of the application.
    pub closed spec fn config(self) -> &'c Config {
        self.config
    }

    /// Create new [`AnonymousMessageHandler`].
    pub fn new(config: &'c Config) -> (handler: Self)
        ensures
            handler.config() == config,
    {
        AnonymousMessageHandler { config }
    }

    /// Take in a received message. Only an identifier has an effect.
    pub fn listen(&self, received: Result<Message, ServerError>) -> (step: AnonymousStep)
        ensures
            step == anonymous_step(received),
    {
        match received {
            Ok(Message::Identifier(id)) => AnonymousStep::Upgrade(id),
            Ok(_) => AnonymousStep::Wait,
            Err(error) => AnonymousStep::Fail(error),
        }
    }

    /// Upgrade [`AnonymousMessageHandler`] to [`IdentifiableMessageHandler`]
    pub fn upgrade(
        self,
        id: u128,
        database: &mut HandlerDatabase,
    ) -> (handler: IdentifiableMessageHandler<'c>)
        requires
            old(database).wf(),
        ensures
            final(database).wf(),
            handler.id() == id,
            handler.config() == self.config(),
            handler.is_registered(old(database)@, final(database)@),
    {
        IdentifiableMessageHandler::new(id, self.config, database)
    }
}

/// What to do after a message for a handler with an identifier.
pub enum MessageStep {
    /// Wait for the next message.
    Continue,

    /// Wait for the next message: this one was a second identifier, which has no effect.
    IdentifierIgnored,

    /// End the connection.
    Stop(ServerError),
}

/// What to do for an action.
pub enum ActionStep {
    /// Write the frame.
    Write(Vec<u8>),

    /// Write the frames, each after one tick.
    Play(Vec<Vec<u8>>),

    /// Hand the speech recognition config over to whoever waits for it.
    Provide(SpeechRecognitionConfig),

    /// Nothing: wait for the next action.
    Ignore,

    /// End the connection.
    Stop(ServerError),
}

/// What became of the last step of listening for actions.
pub enum ActionEvent {
    /// An action has come.
    Received(MessageHandlerAction),

    /// The frames of an action were written, or one of them could not be.
    Written(Result<(), IoError>),

    /// No more actions will come.
    Closed,
}

/// Message handler, that has a unique identifier attached.
///
/// Listens for all messages, and drives connection event loop.
pub struct IdentifiableMessageHandler<'c> {
    id: u128,
    config: &'c Config,
    channel: Receiver<MessageHandlerAction>,
}

/// What comes after a message for a handler with an identifier.
pub open spec fn message_step(received: Result<Message, ServerError>) -> MessageStep {
    match received {
        Ok(Message::Identifier(_)) => MessageStep::IdentifierIgnored,
        Ok(Message::Terminate) => MessageStep::Stop(ServerError::ClientDisconnected(None)),
        Ok(_) => MessageStep::Continue,
        Err(ServerError::IoError(error)) => if error.disconnects() {
            MessageStep::Stop(ServerError::ClientDisconnected(Some(error)))
        } else {
            MessageStep::Stop(ServerError::IoError(error))
        },
        Err(error) => MessageStep::Stop(error),
    }
}

/// The audio of a message, if it has any.
pub open spec fn audio_of(received: Result<Message, ServerError>) -> Option<Seq<u8>> {
    match received {
        Ok(Message::Audio(Some(audio))) => Some(audio@),
        _ => None,
    }
}

/// What is sent back to the handler itself after a message.
pub open spec fn looped_back(
    id: u128,
    loopback_audio: bool,
    received: Result<Message, ServerError>,
) -> Option<(u128, MessageHandlerActionView)> {
    match audio_of(received) {
        Some(audio) => if loopback_audio {
            Some((id, MessageHandlerActionView::Play(audio)))
        } else {
            None
        },
        None => None,
    }
}

/// What waits for speech recognition after a message.
pub open spec fn with_pending(
    pending: Seq<SpeechRecognitionRequest>,
    received: Result<Message, ServerError>,
) -> Seq<SpeechRecognitionRequest> {
    match received {
        Ok(Message::Audio(Some(audio))) => pending.push(SpeechRecognitionRequest { audio }),
        _ => pending,
    }
}

/// The audio of messages, in order.
pub open spec fn audio_among(received: Seq<Result<Message, ServerError>>) -> Seq<Seq<u8>>
    decreases received.len(),
{
    if received.len() == 0 {
        Seq::empty()
    } else {
        match audio_of(received.last()) {
            Some(audio) => audio_among(received.drop_last()).push(audio),
            None => audio_among(received.drop_last()),
        }
    }
}

/// Speech recognition of a call after audio was sent to it, if there is any.
pub open spec fn audio_offered(
    before: Option<SpawnedSpeechRecognition>,
    audio: Seq<u8>,
    after: Option<SpawnedSpeechRecognition>,
) -> bool {
    match (before, after) {
        (Some(before), Some(after)) => {
            &&& after.receivers() == before.receivers()
            &&& before.offered(audio, after)
        },
        (None, None) => true,
        _ => false,
    }
}

/// Speech recognition of a call can be sent to.
pub open spec fn recognition_wf(recognition: Option<SpawnedSpeechRecognition>) -> bool {
    recognition matches Some(spawned) ==> spawned.wf()
}

/// Does an action hand the speech recognition config over to somebody who waits for it?
pub open spec fn hands_over(awaits_config: bool, action: MessageHandlerActionView) -> bool {
    awaits_config && action is RecognitionConfig
}

/// Does somebody still wait for the speech recognition config after an action?
pub open spec fn still_awaits(awaits_config: bool, action: MessageHandlerActionView) -> bool {
    awaits_config && !(action is RecognitionConfig)
}

/// The step that executes an action.
pub open spec fn executes(
    awaits_config: bool,
    action: MessageHandlerAction,
    step: ActionStep,
) -> bool {
    match action {
        MessageHandlerAction::Hangup => {
            &&& step matches ActionStep::Write(frame)
            &&& frame@ == MessageView::Terminate.frame()
        },
        MessageHandlerAction::Play(audio) => {
            &&& step matches ActionStep::Play(frames)
            &&& frames@.map_values(|frame: Vec<u8>| frame@) == playback(audio@)
        },
        MessageHandlerAction::RecognitionConfig(config) => step == if hands_over(
            awaits_config,
            action@,
        ) {
            ActionStep::Provide(config)
        } else {
            ActionStep::Ignore
        },
    }
}

/// The error that ends listening for actions after an event, if it ends.
pub open spec fn listening_end(event: ActionEvent) -> Option<ServerError> {
    match event {
        ActionEvent::Received(_) => None,
        ActionEvent::Written(Ok(_)) => None,
        ActionEvent::Written(Err(error)) => Some(ServerError::IoError(error)),
        ActionEvent::Closed => Some(ServerError::ClientDisconnected(None)),
    }
}

/// What comes after an event of listening for actions.
pub open spec fn listens(before: bool, event: ActionEvent, after: bool, step: ActionStep) -> bool {
    match event {
        ActionEvent::Received(action) => {
            &&& after == still_awaits(before, action@)
            &&& executes(before, action, step)
        },
        _ => {
            &&& after == before
            &&& step == match listening_end(event) {
                Some(error) => ActionStep::Stop(error),
                None => ActionStep::Ignore,
            }
        },
    }
}

/// Listening for actions, up to its end or as far as there are events: `steps` are what comes after
/// each event, `awaits_config` tells before and behind each of them whether a config is awaited.
pub open spec fn is_listening(
    events: Seq<ActionEvent>,
    awaits_config: Seq<bool>,
    steps: Seq<ActionStep>,
) -> bool {
    &&& steps.len() <= events.len()
    &&& awaits_config.len() == steps.len() + 1
    &&& forall|i: int|
        0 <= i < steps.len() ==> listens(
            awaits_config[i],
            events[i],
            awaits_config[i + 1],
            #[trigger] steps[i],
        )
    &&& forall|i: int| 0 <= i < steps.len() - 1 ==> !((#[trigger] steps[i]) is Stop)
    &&& steps.len() == events.len() || steps.len() > 0 && steps.last() is Stop
}

impl<'c> IdentifiableMessageHandler<'c> {
    /// Identifier of the call.
    pub closed spec fn id(self) -> u128 {
        self.id
    }

    /// Config of the application.
    pub closed spec fn config(self) -> &'c Config {
        self.config
    }

    /// Where the handler gets its actions from.
    pub closed spec fn source(self) -> Receiver<MessageHandlerAction> {
        self.channel
    }

    /// `after` is the database `before` with this handler in it: actions for its identifier go into
    /// a fresh channel, that the handler listens to.
    pub open spec fn is_registered(
        self,
        before: HandlerDatabaseView,
        after: HandlerDatabaseView,
    ) -> bool {
        &&& after.handlers.contains_key(self.id())
        &&& after == before.with_handler(self.id(), after.handlers[self.id()])
        &&& after.handlers[self.id()].receivers.contains(self.source())
        &&& after.handlers[self.id()].sent == Seq::<(MessageHandlerActionView, bool)>::empty()
    }

    /// Create new [`IdentifiableMessageHandler`], and register it in the database.
    pub fn new(id: u128, config: &'c Config, database: &mut HandlerDatabase) -> (handler: Self)
        requires
            old(database).wf(),
        ensures
            final(database).wf(),
            handler.id() == id,
            handler.config() == config,
            handler.is_registered(old(database)@, final(database)@),
    {
        let (sender, receiver) = action_channel();
        let ghost fresh = mailbox(sender);
        database.add_handler(id, sender);
        assert(fresh.sent =~= Seq::empty());
        assert(database@.handlers[id] == fresh);
        IdentifiableMessageHandler { id, config, channel: receiver }
    }

    /// Where the handler gets its actions from.
    pub fn channel(&self) -> (channel: &Receiver<MessageHandlerAction>)
        ensures
            *channel == self.source(),
    {
        &self.channel
    }

    /// Start listening: WebSocket clients are asked for the speech recognition config of the call.
    pub fn listen(&self, database: &mut HandlerDatabase)
        requires
            old(database).wf(),
        ensures
            final(database).wf(),
            final(database)@ == old(database)@.with_notification(
                WsNotification::RecognitionConfigRequest(self.id()),
            ),
    {
        database.add_notification(WsNotification::RecognitionConfigRequest(self.id));
    }

    /// The result of a connection: that the client has gone away is no error.
    pub fn finish(result: Result<(), ServerError>) -> (outcome: Result<(), ServerError>)
        ensures
            outcome == match result {
                Ok(_) => Ok(()),
                Err(ServerError::ClientDisconnected(_)) => Ok(()),
                Err(error) => Err(error),
            },
    {
        match result {
            Ok(_) => Ok(()),
            Err(ServerError::ClientDisconnected(_)) => Ok(()),
            Err(error) => Err(error),
        }
    }

    /// End the handler, and remove it from the database.
    pub fn close(self, database: &mut HandlerDatabase)
        requires
            old(database).wf(),
        ensures
            final(database).wf(),
            final(database)@ == old(database)@.without_handler(self.id()),
    {
        database.remove_handler(self.id);
    }

    /// Take in a received AudioSocket message of a call, whose speech recognition is set up or is not
    /// to be had.
    ///
    /// Audio goes to speech recognition, and back to the handler itself if audio is looped back.
    pub fn handle_message(
        id: u128,
        config: &Config,
        database: &mut HandlerDatabase,
        recognition: &mut Option<SpawnedSpeechRecognition>,
        received: Result<Message, ServerError>,
    ) -> (step: MessageStep)
        requires
            old(database).wf(),
            recognition_wf(*old(recognition)),
        ensures
            final(database).wf(),
            recognition_wf(*final(recognition)),
            step == message_step(received),
            old(database)@.after_offer(
                looped_back(id, config@.loopback_audio, received),
                final(database)@,
            ),
            match audio_of(received) {
                Some(audio) => audio_offered(*old(recognition), audio, *final(recognition)),
                None => *final(recognition) == *old(recognition),
            },
    {
        match received {
            Ok(Message::Audio(Some(audio))) => {
                Self::loop_back(id, config, database, &audio);
                if let Some(spawned) = recognition {
                    spawned.send(SpeechRecognitionRequest { audio });
                }
                MessageStep::Continue
            },
            other => Self::after_message(other),
        }
    }

    /// Take in a received AudioSocket message of a call, whose speech recognition config is still
    /// awaited.
    ///
    /// Audio waits for speech recognition behind what is pending already, and goes back to the handler
    /// itself if audio is looped back.
    pub fn handle_awaiting(
        id: u128,
        config: &Config,
        database: &mut HandlerDatabase,
        pending: &mut Vec<SpeechRecognitionRequest>,
        received: Result<Message, ServerError>,
    ) -> (step: MessageStep)
        requires
            old(database).wf(),
        ensures
            final(database).wf(),
            step == message_step(received),
            old(database)@.after_offer(
                looped_back(id, config@.loopback_audio, received),
                final(database)@,
            ),
            final(pending)@ == with_pending(old(pending)@, received),
    {
        match received {
            Ok(Message::Audio(Some(audio))) => {
                Self::loop_back(id, config, database, &audio);
                pending.push(SpeechRecognitionRequest { audio });
                MessageStep::Continue
            },
            other => Self::after_message(other),
        }
    }

    /// Send audio back to the handler itself, if audio is looped back.
    fn loop_back(id: u128, config: &Config, database: &mut HandlerDatabase, audio: &Vec<u8>)
        requires
            old(database).wf(),
        ensures
            final(database).wf(),
            if config@.loopback_audio {
                old(database)@.offered(
                    id,
                    MessageHandlerActionView::Play(audio@),
                    final(database)@,
                )
            } else {
                final(database)@ == old(database)@
            },
    {
        if config.loopback_audio() {
            let copy = slice_to_vec(audio.as_slice());
            database.send(id, MessageHandlerAction::Play(copy));
        }
    }

    /// Decide how to go on after a message.
    fn after_message(received: Result<Message, ServerError>) -> (step: MessageStep)
        ensures
            step == message_step(received),
    {
        match received {
            Ok(Message::Identifier(_)) => MessageStep::IdentifierIgnored,
            Ok(Message::Terminate) => MessageStep::Stop(ServerError::ClientDisconnected(None)),
            Ok(_) => MessageStep::Continue,
            Err(ServerError::IoError(error)) => {
                if error.is_disconnect() {
                    MessageStep::Stop(ServerError::ClientDisconnected(Some(error)))
                } else {
                    MessageStep::Stop(ServerError::IoError(error))
                }
            },
            Err(error) => MessageStep::Stop(error),
        }
    }

    /// Take in an action. `awaits_config` tells whether somebody waits for the speech recognition
    /// config of the call: only the first config is handed over.
    ///
    /// Returns an error if a frame cannot be written, which does not happen.
    pub fn handle_action(
        awaits_config: &mut bool,
        action: MessageHandlerAction,
    ) -> (result: Result<ActionStep, ServerError>)
        ensures
            *final(awaits_config) == still_awaits(*old(awaits_config), action@),
            result matches Ok(step) && executes(*old(awaits_config), action, step),
    {
        match action {
            MessageHandlerAction::Hangup => match encode(&Message::Terminate) {
                Ok(frame) => Ok(ActionStep::Write(frame)),
                Err(error) => Err(ServerError::AudioSocketError(error)),
            },
            MessageHandlerAction::RecognitionConfig(config) => {
                if *awaits_config {
                    *awaits_config = false;
                    Ok(ActionStep::Provide(config))
                } else {
                    Ok(ActionStep::Ignore)
                }
            },
            MessageHandlerAction::Play(audio) => match play(&audio) {
                Ok(frames) => Ok(ActionStep::Play(frames)),
                Err(error) => Err(error),
            },
        }
    }

    /// Listen for actions: take in what became of the last step. Listening starts with the wait for an
    /// action.
    ///
    /// It ends when no more actions will come, or when a frame cannot be written.
    pub fn action_listen(awaits_config: &mut bool, event: ActionEvent) -> (step: ActionStep)
        ensures
            listens(*old(awaits_config), event, *final(awaits_config), step),
    {
        match event {
            ActionEvent::Received(action) => match Self::handle_action(awaits_config, action) {
                Ok(step) => step,
                Err(error) => ActionStep::Stop(error),
            },
            ActionEvent::Written(Ok(())) => ActionStep::Ignore,
            ActionEvent::Written(Err(error)) => ActionStep::Stop(ServerError::IoError(error)),
            ActionEvent::Closed => ActionStep::Stop(Self::channel_closed()),
        }
    }

    /// The end of a handler, that gets no more actions.
    pub fn channel_closed() -> (error: ServerError)
        ensures
            error == ServerError::ClientDisconnected(None),
    {
        ServerError::ClientDisconnected(None)
    }
}

/// The speech recognition config of a call: the one that a client gave in time, else the fallback
/// of the application config, else the default one.
pub open spec fn chosen_recognition_config(
    received: Option<SpeechRecognitionConfigView>,
    fallback: Option<SpeechRecognitionConfigView>,
) -> SpeechRecognitionConfigView {
    match (received, fallback) {
        (Some(config), _) => config,
        (None, Some(config)) => config,
        (None, None) => default_recognition_config(),
    }
}

/// Set up speech recognition of a call with the config that a client gave in time, if any did.
pub fn prepare_recognition_service<'c>(
    id: u128,
    application_config: &'c Config,
    received: Option<SpeechRecognitionConfig>,
) -> (task: Option<RecognitionTask<'c>>)
    ensures
        match task {
            Some(task) => {
                &&& application_config@.recognition_driver is Some
                &&& task.spawned.wf()
                &&& task.spawned.receivers().contains(task.requests)
                &&& task.spawned.sent() == Seq::<(Seq<u8>, bool)>::empty()
                &&& task.sink.id() == id
                &&& task.config.application_config == application_config
                &&& task.config.recognition_config@ == chosen_recognition_config(
                    recognition_config_view(received),
                    application_config@.fallback_recognition_config,
                )
            },
            None => application_config@.recognition_driver is None,
        },
{
    let recognition_config = match received {
        Some(config) => config,
        None => match application_config.fallback_recognition_config() {
            Some(config) => config.clone(),
            None => SpeechRecognitionConfig::default(),
        },
    };
    spawn_speech_recognition(
        id,
        SpeechRecognitionServiceConfig { application_config, recognition_config },
    )
}

/// Send the audio that has waited for speech recognition of a call, now that it is set up.
///
/// If the call has no speech recognition, the audio is dropped.
pub fn send_pending(
    recognition: &mut Option<SpawnedSpeechRecognition>,
    pending: Vec<SpeechRecognitionRequest>,
)
    requires
        recognition_wf(*old(recognition)),
    ensures
        recognition_wf(*final(recognition)),
        match (*old(recognition), *final(recognition)) {
            (Some(before), Some(after)) => {
                &&& after.receivers() == before.receivers()
                &&& before.sent().is_prefix_of(after.sent())
                &&& after.audio() == before.audio() + pending_audio(pending@)
            },
            (None, None) => true,
            _ => false,
        },
{
    if let Some(spawned) = recognition {
        spawned.send_all(pending);
    }
}

/// All audio of a call reaches speech recognition in order, each piece once, whether it came while the
/// config was awaited or after speech recognition was set up.
///
/// `pending` are what waits before and behind each of the messages `awaiting`, and `prepared` is the
/// fresh speech recognition that it is sent to then. `recognitions` are its states before and behind
/// each of the messages `listening`.
pub proof fn all_audio_reaches_recognition(
    awaiting: Seq<Result<Message, ServerError>>,
    pending: Seq<Seq<SpeechRecognitionRequest>>,
    prepared: SpawnedSpeechRecognition,
    listening: Seq<Result<Message, ServerError>>,
    recognitions: Seq<SpawnedSpeechRecognition>,
)
    requires
        pending.len() == awaiting.len() + 1,
        pending[0].len() == 0,
        forall|i: int|
            0 <= i < awaiting.len() ==> pending[i + 1] == with_pending(
                pending[i],
                #[trigger] awaiting[i],
            ),
        prepared.audio().len() == 0,
        recognitions.len() == listening.len() + 1,
        recognitions[0].audio() == prepared.audio() + pending_audio(pending.last()),
        forall|i: int|
            0 <= i < listening.len() ==> match audio_of(#[trigger] listening[i]) {
                Some(audio) => audio_offered(
                    Some(recognitions[i]),
                    audio,
                    Some(recognitions[i + 1]),
                ),
                None => recognitions[i + 1] == recognitions[i],
            },
    ensures
        recognitions.last().audio() == audio_among(awaiting) + audio_among(listening),
{
    lemma_pending_audio(awaiting, pending);
    lemma_recognized_audio(listening, recognitions);
    assert(prepared.audio() + pending_audio(pending.last()) =~= audio_among(awaiting));
}

/// What waits is the audio of all messages so far.
proof fn lemma_pending_audio(
    received: Seq<Result<Message, ServerError>>,
    pending: Seq<Seq<SpeechRecognitionRequest>>,
)
    requires
        pending.len() == received.len() + 1,
        pending[0].len() == 0,
        forall|i: int|
            0 <= i < received.len() ==> pending[i + 1] == with_pending(
                pending[i],
                #[trigger] received[i],
            ),
    ensures
        pending_audio(pending.last()) == audio_among(received),
    decreases received.len(),
{
    if received.len() > 0 {
        let last = received.len() - 1;
        let before = received.drop_last();
        let earlier = pending.drop_last();
        assert forall|i: int| 0 <= i < before.len() implies earlier[i + 1] == with_pending(
            earlier[i],
            #[trigger] before[i],
        ) by {
            assert(before[i] == received[i]);
        }
        lemma_pending_audio(before, earlier);
        assert(pending[last + 1] == with_pending(pending[last], received[last]));
        assert(earlier.last() == pending[last]);
        if let Some(audio) = audio_of(received[last]) {
            assert(pending_audio(pending.last()) =~= pending_audio(earlier.last()).push(audio));
        }
    } else {
        assert(pending_audio(pending.last()) =~= Seq::empty());
    }
}

/// Speech recognition gets the audio of all messages one after another.
proof fn lemma_recognized_audio(
    received: Seq<Result<Message, ServerError>>,
    recognitions: Seq<SpawnedSpeechRecognition>,
)
    requires
        recognitions.len() == received.len() + 1,
        forall|i: int|
            0 <= i < received.len() ==> match audio_of(#[trigger] received[i]) {
                Some(audio) => audio_offered(
                    Some(recognitions[i]),
                    audio,
                    Some(recognitions[i + 1]),
                ),
                None => recognitions[i + 1] == recognitions[i],
            },
    ensures
        recognitions.last().audio() == recognitions[0].audio() + audio_among(received),
    decreases received.len(),
{
    let start = recognitions[0].audio();
    if received.len() > 0 {
        let last = received.len() - 1;
        let before = received.drop_last();
        let earlier = recognitions.drop_last();
        assert forall|i: int| 0 <= i < before.len() implies match audio_of(#[trigger] before[i]) {
            Some(audio) => audio_offered(Some(earlier[i]), audio, Some(earlier[i + 1])),
            None => earlier[i + 1] == earlier[i],
        } by {
            assert(before[i] == received[i]);
        }
        lemma_recognized_audio(before, earlier);
        assert(earlier.last() == recognitions[last]);
        assert(received.last() == received[last]);
        if let Some(audio) = audio_of(received[last]) {
            assert(audio_offered(
                Some(recognitions[last]),
                audio,
                Some(recognitions[last + 1]),
            ));
            assert(recognitions[last + 1].audio() =~= recognitions[last].audio().push(audio));
            assert((start + audio_among(before)).push(audio) =~= start + audio_among(received));
        }
    } else {
        assert(start + audio_among(received) =~= start);
    }
}

/// The chunks that audio is played in.
pub open spec fn chunks(audio: Seq<u8>) -> Seq<Seq<u8>> {
    Seq::new(chunk_count(audio.len()), |index: int| chunk(audio, index))
}

/// The chunks of audio are its first chunk, and the chunks of what comes behind.
proof fn lemma_chunks_step(audio: Seq<u8>)
    requires
        audio.len() > 0,
    ensures
        chunks(audio).len() > 0,
        chunks(audio).first() == chunk(audio, 0),
        audio.len() <= CHUNK_SIZE ==> chunks(audio).drop_first().len() == 0,
        audio.len() > CHUNK_SIZE ==> chunks(audio).drop_first() == chunks(
            audio.skip(CHUNK_SIZE as int),
        ),
{
    if audio.len() > CHUNK_SIZE {
        let rest = audio.skip(CHUNK_SIZE as int);
        assert(chunks(audio).drop_first().len() == chunks(rest).len());
        assert forall|index: int| 0 <= index < chunks(rest).len() implies chunks(
            audio,
        ).drop_first()[index] == chunks(rest)[index] by {
            assert(chunk(audio, index + 1) =~= chunk(rest, index));
        }
        assert(chunks(audio).drop_first() =~= chunks(rest));
    }
}

/// The chunks of audio hold all of it in order, and behind it as many zeros as fill up the last
/// chunk: less than one chunk of them. Silence of no bytes takes no chunk.
pub proof fn chunks_hold_all_audio(audio: Seq<u8>)
    ensures
        forall|index: int|
            0 <= index < chunks(audio).len() ==> (#[trigger] chunks(audio)[index]).len()
                == CHUNK_SIZE,
        audio.len() <= chunks(audio).len() * CHUNK_SIZE < audio.len() + CHUNK_SIZE,
        chunks(audio).flatten() == audio + Seq::new(
            (chunks(audio).len() * CHUNK_SIZE - audio.len()) as nat,
            |i: int| 0u8,
        ),
    decreases audio.len(),
{
    reveal_with_fuel(Seq::flatten, 2);
    let zeros = Seq::new(
        (chunks(audio).len() * CHUNK_SIZE - audio.len()) as nat,
        |i: int| 0u8,
    );
    if audio.len() == 0 {
        assert(chunks(audio).flatten() =~= audio + zeros);
    } else {
        lemma_chunks_step(audio);
        if audio.len() > CHUNK_SIZE {
            let rest = audio.skip(CHUNK_SIZE as int);
            chunks_hold_all_audio(rest);
            assert(chunks(audio).flatten() =~= audio + zeros);
        } else {
            assert(chunks(audio).drop_first() =~= Seq::empty());
            assert(chunks(audio).flatten() =~= audio + zeros);
        }
    }
}

/// Each frame of a playback is a header, which announces audio of one chunk, and the chunk.
pub proof fn playback_frames_the_chunks(audio: Seq<u8>)
    ensures
        playback(audio).len() == chunks(audio).len(),
        forall|index: int|
            0 <= index < playback(audio).len() ==> #[trigger] playback(audio)[index] == seq![
                0x10u8,
                0x01u8,
                0x40u8,
            ] + chunks(audio)[index],
{
    reveal_with_fuel(be_bytes, 3);
    assert(be_bytes(320, 2) =~= seq![0x01u8, 0x40u8]);
    assert forall|index: int| 0 <= index < playback(audio).len() implies #[trigger] playback(
        audio,
    )[index] == seq![0x10u8, 0x01u8, 0x40u8] + chunks(audio)[index] by {
        assert(playback(audio)[index] =~= seq![0x10u8, 0x01u8, 0x40u8] + chunks(audio)[index]);
    }
}

/// Audio of exactly one chunk, as clients send it, is played as it came: a handler that loops audio
/// back writes the frame that it has received.
pub proof fn chunk_is_played_as_received(audio: Seq<u8>)
    requires
        audio.len() == CHUNK_SIZE,
    ensures
        playback(audio) == seq![MessageView::Audio(Some(audio)).frame()],
{
    assert(chunk(audio, 0) =~= audio);
    assert(playback(audio) =~= seq![MessageView::Audio(Some(audio)).frame()]);
}

/// A hangup is written as three zeros: the type of a terminating message, and no payload.
pub proof fn hangup_is_three_zeros()
    ensures
        MessageView::Terminate.frame() == seq![0u8, 0u8, 0u8],
{
    reveal_with_fuel(be_bytes, 3);
    assert(MessageView::Terminate.frame() =~= seq![0u8, 0u8, 0u8]);
}

/// Does anybody still wait for the speech recognition config of a call, after these actions?
pub open spec fn awaits_after(awaits_config: bool, actions: Seq<MessageHandlerActionView>) -> bool
    decreases actions.len(),
{
    if actions.len() == 0 {
        awaits_config
    } else {
        still_awaits(awaits_after(awaits_config, actions.drop_last()), actions.last())
    }
}

/// Somebody waits for a config until the first one comes: of any actions, the only one that hands a
/// config over is the first one that holds any.
pub proof fn first_config_is_handed_over(actions: Seq<MessageHandlerActionView>, index: int)
    requires
        0 <= index < actions.len(),
    ensures
        hands_over(awaits_after(true, actions.take(index)), actions[index]) <==> actions[index]
            is RecognitionConfig && forall|i: int|
            0 <= i < index ==> !((#[trigger] actions[i]) is RecognitionConfig),
{
    lemma_awaits_until_config(actions.take(index));
    assert forall|i: int| 0 <= i < index implies actions[i] == #[trigger] actions.take(
        index,
    )[i] by {}
    if awaits_after(true, actions.take(index)) {
        assert forall|i: int| 0 <= i < index implies !((#[trigger] actions[i])
            is RecognitionConfig) by {
            assert(actions.take(index)[i] == actions[i]);
        }
    }
}

/// A config is awaited as long as none has come.
proof fn lemma_awaits_until_config(actions: Seq<MessageHandlerActionView>)
    ensures
        awaits_after(true, actions) <==> forall|i: int|
            0 <= i < actions.len() ==> !((#[trigger] actions[i]) is RecognitionConfig),
    decreases actions.len(),
{
    if actions.len() > 0 {
        let before = actions.drop_last();
        lemma_awaits_until_config(before);
        assert(forall|i: int| 0 <= i < before.len() ==> before[i] == #[trigger] actions[i]);
        assert(actions[actions.len() - 1] == actions.last());
    }
}

/// A handler without an identifier ignores all messages until it gets one, and is upgraded with the
/// first one that it gets.
pub proof fn first_identifier_upgrades(
    received: Seq<Result<Message, ServerError>>,
    index: int,
    id: u128,
)
    requires
        0 <= index < received.len(),
        received[index] == Ok::<Message, ServerError>(Message::Identifier(id)),
        forall|i: int|
            0 <= i < index ==> ((#[trigger] received[i]) matches Ok(message) && !(message
                is Identifier)),
    ensures
        forall|i: int|
            0 <= i < index ==> anonymous_step(#[trigger] received[i]) == AnonymousStep::Wait,
        anonymous_step(received[index]) == AnonymousStep::Upgrade(id),
{
}

/// Listening for actions ends with an error, and never without one: with the error of the first write
/// that fails, or as a disconnect when no more actions will come, whichever is first. Every action
/// that has come before is executed, in order. Whatever would come behind is not: an action that waits
/// behind a failed write is left.
pub proof fn listening_ends_with_the_first_failure(
    events: Seq<ActionEvent>,
    awaits_config: Seq<bool>,
    steps: Seq<ActionStep>,
    index: int,
)
    requires
        is_listening(events, awaits_config, steps),
        0 <= index < events.len(),
        listening_end(events[index]) is Some,
        forall|i: int| 0 <= i < index ==> listening_end(#[trigger] events[i]) is None,
    ensures
        steps.len() == index + 1,
        match events[index] {
            ActionEvent::Written(Err(error)) => steps.last() == ActionStep::Stop(
                ServerError::IoError(error),
            ),
            ActionEvent::Closed => steps.last() == ActionStep::Stop(
                ServerError::ClientDisconnected(None),
            ),
            _ => false,
        },
        forall|i: int|
            0 <= i < index ==> ((#[trigger] events[i]) matches ActionEvent::Received(action)
                ==> executes(awaits_config[i], action, steps[i])),
{
    assert forall|i: int| 0 <= i < steps.len() implies ((#[trigger] steps[i]) is Stop
        <==> listening_end(events[i]) is Some) by {
        assert(listens(awaits_config[i], events[i], awaits_config[i + 1], steps[i]));
    }
    if steps.len() > 0 {
        let last = steps.len() - 1;
        assert(steps[last] == steps.last());
        if steps.len() <= index {
            assert(listening_end(events[last]) is None);
        }
        if steps.len() > index + 1 {
            assert(!(steps[index] is Stop));
        }
    }
    assert(listens(awaits_config[index], events[index], awaits_config[index + 1], steps[index]));
    assert forall|i: int| 0 <= i < index implies ((#[trigger] events[i])
        matches ActionEvent::Received(action) ==> executes(awaits_config[i], action, steps[i])) by {
        assert(listens(awaits_config[i], events[i], awaits_config[i + 1], steps[i]));
    }
}

/// A handler is registered exactly as long as it lives: from its creation on, whatever is sent, actions
/// for its identifier go into the channel that it listens to; after it was closed there is no handler
/// under its identifier. All other handlers stay as they were.
pub proof fn handler_is_registered_as_long_as_it_lives(
    handler: IdentifiableMessageHandler<'_>,
    before: HandlerDatabaseView,
    created: HandlerDatabaseView,
    sent: Seq<(MessageHandlerActionView, bool)>,
    other: u128,
)
    requires
        handler.is_registered(before, created),
        other != handler.id(),
    ensures
        ({
            let living = created.with_actions(handler.id(), sent);
            let closed = living.without_handler(handler.id());
            &&& living.handlers.contains_key(handler.id())
            &&& living.handlers[handler.id()].receivers.contains(handler.source())
            &&& living.handlers[handler.id()].sent == sent
            &&& !closed.handlers.contains_key(handler.id())
            &&& closed.handlers.contains_key(other) <==> before.handlers.contains_key(other)
            &&& closed.handlers[other] == before.handlers[other]
        }),
{
    actions_are_sent_in_order(created, handler.id(), sent);
    assert(Seq::<(MessageHandlerActionView, bool)>::empty() + sent =~= sent);
}

} // verus!
