use vstd::prelude::*;

use flume::{Receiver, Sender};

use crate::channel::{
    audio_bound, audio_channel, audio_log, audio_receivers, send_audio, send_speech, speech_bound,
    speech_channel, speech_log, speech_receivers,
};
use crate::action::MessageHandlerActionView;
use crate::config::{Config, SpeechRecognitionDriver, SpeechSynthesisDriver};
use crate::db::{offered_to, offers_arrive_in_order, HandlerDatabaseView};
use crate::gcs::driver::{CloudSpeechError, GoogleCloudSpeech};
use crate::gctts::driver::{CloudTextToSpeechError, GoogleCloudTextToSpeech};
use crate::handler::{chosen_recognition_config, prepare_recognition_service};
use crate::recognition::{
    SpeechRecognitionRequest, SpeechRecognitionResponse, SpeechRecognitionServiceConfig,
    SpeechRecognitionSink,
};
use crate::synthesis::{
    SpeechSynthesisRequest, SpeechSynthesisRequestView, SpeechSynthesisResponse, SpeechSynthesisSink,
};

verus! {

/// A generic service definition.
///
/// In terms of EMS, anything that accepts a stream of requests and returns a stream of responses is
/// a service. You can take a look at speech recognition and synthesis implementation.
pub trait Service: Sized {
    /// A request for service.
    type Input;

    /// A response from service.
    type Output;

    /// An error, that may happen during initialization or while the service runs.
    type Error;

    /// Determine if service should be restarted in case of error.
    ///
    /// By default, in case of fail there will be no restart for a service.
    fn restartable(error: &Self::Error) -> (result: bool)
        default_ensures
            !result,
    {
        false
    }
}

/// Create a [`Service`] from provided config and access token, possibly failing to do so.
pub trait FromConfig<'c>: Sized {
    /// Config of the service.
    type Config: 'c;

    /// An error, that may happen during creation.
    type Error;

    /// The path to the credentials that the access token has to be got with.
    fn credentials<'a>(config: &'a Self::Config) -> Result<&'a String, Self::Error>;

    /// Create the service.
    fn from_config(config: Self::Config, token: String) -> Result<Self, Self::Error>;
}

/// What became of the last step of running a service.
pub enum ServiceEvent<E> {
    /// The service was created from its config, or could not be.
    Configured(Result<(), E>),

    /// The service has opened its stream of responses, or could not.
    Streaming(Result<(), E>),

    /// All responses were forwarded to the sink, or one of them was an error.
    Forwarded(Result<(), E>),
}

/// What to do next to run a service.
pub enum ServiceStep<E> {
    /// Create the service from its config.
    Configure,

    /// Open its stream of responses.
    Stream,

    /// Forward the responses to the sink.
    Forward,

    /// The service has ended.
    Finish(Result<(), E>),
}

/// What comes after an event of a service. Only an error among the responses may restart it, if the
/// service is to be restarted after this error.
pub open spec fn service_step<E>(event: ServiceEvent<E>, restart: bool) -> ServiceStep<E> {
    match event {
        ServiceEvent::Configured(Ok(_)) => ServiceStep::Stream,
        ServiceEvent::Configured(Err(error)) => ServiceStep::Finish(Err(error)),
        ServiceEvent::Streaming(Ok(_)) => ServiceStep::Forward,
        ServiceEvent::Streaming(Err(error)) => ServiceStep::Finish(Err(error)),
        ServiceEvent::Forwarded(Ok(_)) => ServiceStep::Finish(Ok(())),
        ServiceEvent::Forwarded(Err(error)) => if restart {
            ServiceStep::Configure
        } else {
            ServiceStep::Finish(Err(error))
        },
    }
}

/// `restart` is what a service says of a restart after an event. It is asked only about errors among
/// its responses.
pub open spec fn restart_answer<S: Service>(
    event: ServiceEvent<S::Error>,
    restart: bool,
) -> bool {
    match event {
        ServiceEvent::Forwarded(Err(error)) => call_ensures(S::restartable, (&error,), restart),
        _ => !restart,
    }
}

/// Decide how to go on with a service, of which it is known whether it is to be restarted.
pub fn go_on<E>(event: ServiceEvent<E>, restart: bool) -> (step: ServiceStep<E>)
    ensures
        step == service_step(event, restart),
{
    match event {
        ServiceEvent::Configured(Ok(())) => ServiceStep::Stream,
        ServiceEvent::Configured(Err(error)) => ServiceStep::Finish(Err(error)),
        ServiceEvent::Streaming(Ok(())) => ServiceStep::Forward,
        ServiceEvent::Streaming(Err(error)) => ServiceStep::Finish(Err(error)),
        ServiceEvent::Forwarded(Ok(())) => ServiceStep::Finish(Ok(())),
        ServiceEvent::Forwarded(Err(error)) => {
            if restart {
                ServiceStep::Configure
            } else {
                ServiceStep::Finish(Err(error))
            }
        },
    }
}

/// Decide how to go on with a service.
pub fn spawn_service<S: Service>(event: ServiceEvent<S::Error>) -> (step: ServiceStep<S::Error>)
    ensures
        exists|restart: bool| #[trigger]
            restart_answer::<S>(event, restart) && step == service_step(event, restart),
{
    let restart = match &event {
        ServiceEvent::Forwarded(Err(error)) => S::restartable(error),
        _ => false,
    };
    assert(restart_answer::<S>(event, restart));
    go_on(event, restart)
}

/// What has come from a running service.
pub enum ForwardEvent<T, E> {
    /// An answer: a response, nothing to respond with, or an error.
    Answered(Result<Option<T>, E>),

    /// There are no more answers.
    Ended,
}

/// What to do next to forward the responses of a service to its sink.
pub enum ForwardStep<T, E> {
    /// Deliver the response to the sink, and ask for the next answer.
    Deliver(T),

    /// Ask for the next answer.
    Next,

    /// The forwarding has ended.
    Finish(Result<(), E>),
}

/// What comes after something has come from a service. The first error ends the forwarding.
pub open spec fn forward_step<T, E>(event: ForwardEvent<T, E>) -> ForwardStep<T, E> {
    match event {
        ForwardEvent::Answered(Ok(Some(response))) => ForwardStep::Deliver(response),
        ForwardEvent::Answered(Ok(None)) => ForwardStep::Next,
        ForwardEvent::Answered(Err(error)) => ForwardStep::Finish(Err(error)),
        ForwardEvent::Ended => ForwardStep::Finish(Ok(())),
    }
}

/// Decide how to go on with forwarding the responses of a service.
pub fn forward<T, E>(event: ForwardEvent<T, E>) -> (step: ForwardStep<T, E>)
    ensures
        step == forward_step(event),
{
    match event {
        ForwardEvent::Answered(Ok(Some(response))) => ForwardStep::Deliver(response),
        ForwardEvent::Answered(Ok(None)) => ForwardStep::Next,
        ForwardEvent::Answered(Err(error)) => ForwardStep::Finish(Err(error)),
        ForwardEvent::Ended => ForwardStep::Finish(Ok(())),
    }
}

/// The responses that are delivered of what comes from a service.
pub open spec fn delivered<T, E>(events: Seq<ForwardEvent<T, E>>) -> Seq<T>
    decreases events.len(),
{
    if events.len() == 0 {
        Seq::empty()
    } else {
        match forward_step(events[0]) {
            ForwardStep::Deliver(response) => seq![response] + delivered(events.drop_first()),
            ForwardStep::Next => delivered(events.drop_first()),
            ForwardStep::Finish(_) => Seq::empty(),
        }
    }
}

/// How the forwarding of what comes from a service ends, if it does.
pub open spec fn forwarding_result<T, E>(events: Seq<ForwardEvent<T, E>>) -> Option<Result<(), E>>
    decreases events.len(),
{
    if events.len() == 0 {
        None
    } else {
        match forward_step(events[0]) {
            ForwardStep::Finish(result) => Some(result),
            _ => forwarding_result(events.drop_first()),
        }
    }
}

/// All responses among what comes from a service, in order.
pub open spec fn responses<T, E>(events: Seq<ForwardEvent<T, E>>) -> Seq<T>
    decreases events.len(),
{
    if events.len() == 0 {
        Seq::empty()
    } else {
        match events[0] {
            ForwardEvent::Answered(Ok(Some(response))) => seq![response] + responses(
                events.drop_first(),
            ),
            _ => responses(events.drop_first()),
        }
    }
}

/// The audio of requests that wait to be sent.
pub open spec fn pending_audio(pending: Seq<SpeechRecognitionRequest>) -> Seq<Seq<u8>> {
    pending.map_values(|request: SpeechRecognitionRequest| request.audio@)
}

/// What the requests of a log say.
pub open spec fn audio_view(log: Seq<(SpeechRecognitionRequest, bool)>) -> Seq<(Seq<u8>, bool)> {
    log.map_values(|item: (SpeechRecognitionRequest, bool)| (item.0.audio@, item.1))
}

/// What the requests of a log say.
pub open spec fn speech_view(log: Seq<(SpeechSynthesisRequest, bool)>) -> Seq<
    (SpeechSynthesisRequestView, bool),
> {
    log.map_values(|item: (SpeechSynthesisRequest, bool)| (item.0@, item.1))
}

/// Active background speech recognition task
pub struct SpawnedSpeechRecognition {
    sender: Sender<SpeechRecognitionRequest>,
}

impl SpawnedSpeechRecognition {
    /// The channel of the task has no limit, so that nobody waits while sending.
    pub closed spec fn wf(self) -> bool {
        audio_bound(self.sender) is None
    }

    /// Audio that was sent to the task, oldest first, each with whether it was taken in.
    pub closed spec fn sent(self) -> Seq<(Seq<u8>, bool)> {
        audio_view(audio_log(self.sender))
    }

    /// Where the task may get its requests from.
    pub closed spec fn receivers(self) -> Set<Receiver<SpeechRecognitionRequest>> {
        audio_receivers(self.sender)
    }

    /// `after` is the task after audio was sent to it, whether it was taken in or not.
    pub open spec fn offered(self, audio: Seq<u8>, after: Self) -> bool {
        after.sent() == self.sent().push((audio, true)) || after.sent() == self.sent().push(
            (audio, false),
        )
    }

    /// Audio that was sent to the task, oldest first, taken in or not.
    pub open spec fn audio(self) -> Seq<Seq<u8>> {
        self.sent().map_values(|item: (Seq<u8>, bool)| item.0)
    }

    /// Create new [`SpawnedSpeechRecognition`] from provided [`Sender`].
    pub fn new(sender: Sender<SpeechRecognitionRequest>) -> (spawned: Self)
        requires
            audio_bound(sender) is None,
        ensures
            spawned.wf(),
            spawned.sent() == audio_view(audio_log(sender)),
            spawned.receivers() == audio_receivers(sender),
    {
        SpawnedSpeechRecognition { sender }
    }

    /// Send new audio for recognition.
    ///
    /// If the task has ended, the audio is dropped.
    pub fn send(&mut self, request: SpeechRecognitionRequest)
        requires
            old(self).wf(),
        ensures
            final(self).wf(),
            final(self).receivers() == old(self).receivers(),
            old(self).offered(request.audio@, *final(self)),
    {
        let ghost before = self.sent();
        let sent = send_audio(&mut self.sender, request);
        assert(self.sent() =~= before.push((request.audio@, sent is Ok)));
    }

    /// Send audio that has waited for the task, oldest first.
    ///
    /// If the task has ended, the audio is dropped.
    pub fn send_all(&mut self, pending: Vec<SpeechRecognitionRequest>)
        requires
            old(self).wf(),
        ensures
            final(self).wf(),
            final(self).receivers() == old(self).receivers(),
            old(self).sent().is_prefix_of(final(self).sent()),
            final(self).audio() == old(self).audio() + pending_audio(pending@),
    {
        let ghost all = pending@;
        let ghost start = *self;
        let mut rest = pending;
        let ghost mut count: nat = 0;
        while rest.len() > 0
            invariant
                self.wf(),
                self.receivers() == start.receivers(),
                count <= all.len(),
                rest@ == all.skip(count as int),
                start.sent().is_prefix_of(self.sent()),
                self.audio() == start.audio() + pending_audio(all.take(count as int)),
            decreases rest@.len(),
        {
            let ghost before = *self;
            let request = rest.remove(0);
            assert(request == all[count as int]);
            self.send(request);
            proof {
                assert(self.audio() =~= before.audio().push(request.audio@));
                assert(all.take(count as int + 1) =~= all.take(count as int).push(request));
                assert(self.audio() =~= start.audio() + pending_audio(all.take(count as int + 1)));
                assert(rest@ =~= all.skip(count as int + 1));
                count = count + 1;
            }
        }
        assert(all.take(count as int) =~= all);
    }
}

/// Active background speech synthesis task
pub struct SpawnedSpeechSynthesis {
    sender: Sender<SpeechSynthesisRequest>,
}

impl SpawnedSpeechSynthesis {
    /// The channel of the task has no limit, so that nobody waits while sending.
    pub closed spec fn wf(self) -> bool {
        speech_bound(self.sender) is None
    }

    /// Requests that were sent to the task, oldest first, each with whether it was taken in.
    pub closed spec fn sent(self) -> Seq<(SpeechSynthesisRequestView, bool)> {
        speech_view(speech_log(self.sender))
    }

    /// Where the task may get its requests from.
    pub closed spec fn receivers(self) -> Set<Receiver<SpeechSynthesisRequest>> {
        speech_receivers(self.sender)
    }

    /// `after` is the task after a request was sent to it, whether it was taken in or not.
    pub open spec fn offered(self, request: SpeechSynthesisRequestView, after: Self) -> bool {
        after.sent() == self.sent().push((request, true)) || after.sent() == self.sent().push(
            (request, false),
        )
    }

    /// Create new [`SpawnedSpeechSynthesis`] from provided [`Sender`].
    pub fn new(sender: Sender<SpeechSynthesisRequest>) -> (spawned: Self)
        requires
            speech_bound(sender) is None,
        ensures
            spawned.wf(),
            spawned.sent() == speech_view(speech_log(sender)),
            spawned.receivers() == speech_receivers(sender),
    {
        SpawnedSpeechSynthesis { sender }
    }

    /// Send new text for speech synthesis.
    ///
    /// If the task has ended, the text is dropped.
    pub fn send(&mut self, request: SpeechSynthesisRequest)
        requires
            old(self).wf(),
        ensures
            final(self).wf(),
            final(self).receivers() == old(self).receivers(),
            old(self).offered(request@, *final(self)),
    {
        let ghost before = self.sent();
        let sent = send_speech(&mut self.sender, request);
        assert(self.sent() =~= before.push((request@, sent is Ok)));
    }
}

/// Speech recognition of one call, ready to be run.
pub struct RecognitionTask<'c> {
    /// Where audio of the call has to be sent.
    pub spawned: SpawnedSpeechRecognition,

    /// Where the service gets this audio from.
    pub requests: Receiver<SpeechRecognitionRequest>,

    /// Where the service puts its responses.
    pub sink: SpeechRecognitionSink,

    /// Config of the service.
    pub config: SpeechRecognitionServiceConfig<'c>,
}

/// Speech synthesis of one client, ready to be run.
pub struct SynthesisTask<'c> {
    /// Where requests have to be sent.
    pub spawned: SpawnedSpeechSynthesis,

    /// Where the service gets these requests from.
    pub requests: Receiver<SpeechSynthesisRequest>,

    /// Where the service puts its responses.
    pub sink: SpeechSynthesisSink,

    /// Config of the service.
    pub config: &'c Config,
}

/// Set up speech recognition of a call, if the application config selects a driver.
pub fn spawn_speech_recognition<'c>(
    id: u128,
    config: SpeechRecognitionServiceConfig<'c>,
) -> (task: Option<RecognitionTask<'c>>)
    ensures
        match task {
            Some(task) => {
                &&& config.application_config@.recognition_driver is Some
                &&& task.spawned.wf()
                &&& task.spawned.receivers().contains(task.requests)
                &&& task.spawned.sent() == Seq::<(Seq<u8>, bool)>::empty()
                &&& task.sink.id() == id
                &&& task.config == config
            },
            None => config.application_config@.recognition_driver is None,
        },
{
    match config.application_config.recognition_driver() {
        Some(SpeechRecognitionDriver::GoogleCloudSpeech) => {
            let (sender, requests) = audio_channel();
            let spawned = SpawnedSpeechRecognition::new(sender);
            assert(spawned.sent() =~= Seq::empty());
            Some(RecognitionTask { spawned, requests, sink: SpeechRecognitionSink::new(id), config })
        },
        None => None,
    }
}

/// Set up speech synthesis of a client, if the application config selects a driver.
pub fn spawn_speech_synthesis<'c>(config: &'c Config) -> (task: Option<SynthesisTask<'c>>)
    ensures
        match task {
            Some(task) => {
                &&& config@.synthesis_driver is Some
                &&& task.spawned.wf()
                &&& task.spawned.receivers().contains(task.requests)
                &&& task.spawned.sent() == Seq::<(SpeechSynthesisRequestView, bool)>::empty()
                &&& task.config == config
            },
            None => config@.synthesis_driver is None,
        },
{
    match config.synthesis_driver() {
        Some(SpeechSynthesisDriver::GoogleCloudTextToSpeech) => {
            let (sender, requests) = speech_channel();
            let spawned = SpawnedSpeechSynthesis::new(sender);
            assert(spawned.sent() =~= Seq::empty());
            Some(SynthesisTask { spawned, requests, sink: SpeechSynthesisSink::new(), config })
        },
        None => None,
    }
}

/// Spawns the services of one call that need nothing but the application config.
pub struct ServiceSpawner<'c> {
    id: u128,
    config: &'c Config,
}

impl<'c> ServiceSpawner<'c> {
    /// Identifier of the call.
    pub closed spec fn id(self) -> u128 {
        self.id
    }

    /// Config of the application.
    pub closed spec fn config(self) -> &'c Config {
        self.config
    }

    /// Create new [`ServiceSpawner`].
    pub fn new(id: u128, config: &'c Config) -> (spawner: Self)
        ensures
            spawner.id() == id,
            spawner.config() == config,
    {
        ServiceSpawner { id, config }
    }

    /// Set up needed services from current application config.
    ///
    /// Speech recognition uses the fallback config, as no client has given one.
    pub fn spawn_from_config(self) -> (services: (Option<RecognitionTask<'c>>,))
        ensures
            match services.0 {
                Some(task) => {
                    &&& self.config()@.recognition_driver is Some
                    &&& task.spawned.wf()
                    &&& task.spawned.receivers().contains(task.requests)
                    &&& task.spawned.sent() == Seq::<(Seq<u8>, bool)>::empty()
                    &&& task.sink.id() == self.id()
                    &&& task.config.application_config == self.config()
                    &&& task.config.recognition_config@ == chosen_recognition_config(
                        None,
                        self.config()@.fallback_recognition_config,
                    )
                },
                None => self.config()@.recognition_driver is None,
            },
    {
        (prepare_recognition_service(self.id, self.config, None),)
    }
}

/// A service that cannot be started is not started again, whatever the error and whatever it says
/// of a restart.
pub proof fn failed_start_is_final<E>(error: E, restart: bool)
    ensures
        service_step(ServiceEvent::Configured(Err(error)), restart) == ServiceStep::<E>::Finish(
            Err(error),
        ),
        service_step(ServiceEvent::Streaming(Err(error)), restart) == ServiceStep::<E>::Finish(
            Err(error),
        ),
{
}

/// A service goes through its steps in order, and ends when its responses end.
pub proof fn service_goes_on_in_order<E>(restart: bool)
    ensures
        service_step(ServiceEvent::<E>::Configured(Ok(())), restart) == ServiceStep::<E>::Stream,
        service_step(ServiceEvent::<E>::Streaming(Ok(())), restart) == ServiceStep::<E>::Forward,
        service_step(ServiceEvent::<E>::Forwarded(Ok(())), restart) == ServiceStep::<E>::Finish(Ok(())),
{
}

/// A running service that fails is started again exactly if it says so of the error.
pub proof fn failure_restarts_as_told<E>(error: E, restart: bool)
    ensures
        service_step(ServiceEvent::Forwarded(Err(error)), restart) == if restart {
            ServiceStep::<E>::Configure
        } else {
            ServiceStep::<E>::Finish(Err(error))
        },
{
}

/// Neither speech recognition nor speech synthesis by Google is ever started again: by default
/// there is no restart.
pub proof fn google_services_run_once(
    recognition: ServiceEvent<CloudSpeechError>,
    synthesis: ServiceEvent<CloudTextToSpeechError>,
    restart: bool,
)
    ensures
        restart_answer::<GoogleCloudSpeech>(recognition, restart) ==> service_step(
            recognition,
            restart,
        ) != ServiceStep::<CloudSpeechError>::Configure,
        restart_answer::<GoogleCloudTextToSpeech>(synthesis, restart) ==> service_step(
            synthesis,
            restart,
        ) != ServiceStep::<CloudTextToSpeechError>::Configure,
{
}

/// All responses before the first error, or before the end, are delivered in order, each one once.
/// The error or the end is the result of the forwarding, and what would come behind it has no part in
/// it. Without an error and an end the forwarding goes on.
pub proof fn responses_before_the_end_are_delivered<T, E>(
    events: Seq<ForwardEvent<T, E>>,
    index: int,
)
    requires
        0 <= index <= events.len(),
        forall|i: int|
            0 <= i < index ==> ((#[trigger] events[i]) matches ForwardEvent::Answered(Ok(_))),
        index < events.len() ==> !(events[index] matches ForwardEvent::Answered(Ok(_))),
    ensures
        delivered(events) == responses(events.take(index)),
        forwarding_result(events) == if index == events.len() {
            None::<Result<(), E>>
        } else {
            match events[index] {
                ForwardEvent::Answered(Err(error)) => Some(Err(error)),
                _ => Some(Ok(())),
            }
        },
    decreases events.len(),
{
    if index > 0 {
        let rest = events.drop_first();
        assert(events[0] matches ForwardEvent::Answered(Ok(_)));
        assert forall|i: int| 0 <= i < index - 1 implies ((#[trigger] rest[i])
            matches ForwardEvent::Answered(Ok(_))) by {
            assert(rest[i] == events[i + 1]);
        }
        responses_before_the_end_are_delivered(rest, index - 1);
        assert(events.take(index).drop_first() =~= rest.take(index - 1));
        assert(events.take(index)[0] == events[0]);
    } else {
        assert(events.take(0) =~= Seq::empty());
    }
}

/// The transcriptions of responses of a call.
pub open spec fn transcribed(id: u128, responses: Seq<SpeechRecognitionResponse>) -> Seq<
    (u128, Seq<char>),
> {
    responses.map_values(|response: SpeechRecognitionResponse| (id, response.transcription@))
}

/// The database after responses of a call were delivered to its sink, one after another, holds their
/// transcriptions in order, behind those that have waited before, and is otherwise as it was.
/// `databases` are its states from before the first delivery up to behind the last one.
pub proof fn delivered_transcriptions_are_queued(
    id: u128,
    responses: Seq<SpeechRecognitionResponse>,
    databases: Seq<HandlerDatabaseView>,
)
    requires
        databases.len() == responses.len() + 1,
        forall|i: int|
            0 <= i < responses.len() ==> (#[trigger] databases[i + 1])
                == databases[i].with_transcription(id, responses[i].transcription@),
    ensures
        databases.last() == (HandlerDatabaseView {
            transcriptions: databases[0].transcriptions + transcribed(id, responses),
            ..databases[0]
        }),
    decreases responses.len(),
{
    if responses.len() > 0 {
        let before = responses.drop_last();
        let earlier = databases.drop_last();
        assert forall|i: int| 0 <= i < before.len() implies (#[trigger] earlier[i + 1])
            == earlier[i].with_transcription(id, before[i].transcription@) by {
            assert(databases[i + 1] == databases[i].with_transcription(
                id,
                responses[i].transcription@,
            ));
        }
        delivered_transcriptions_are_queued(id, before, earlier);
        let last = responses.len() - 1;
        assert(databases[last + 1] == databases[last].with_transcription(
            id,
            responses[last].transcription@,
        ));
        assert(earlier.last() == databases[last]);
        assert((databases[0].transcriptions + transcribed(id, before)).push(
            (id, responses[last].transcription@),
        ) =~= databases[0].transcriptions + transcribed(id, responses));
    } else {
        assert(databases[0].transcriptions + transcribed(id, responses)
            =~= databases[0].transcriptions);
    }
}

/// What the delivery of a synthesized response sends: its audio, to the handler that asked for it.
pub open spec fn playback_offer(response: SpeechSynthesisResponse) -> Option<
    (u128, MessageHandlerActionView),
> {
    Some((response.id, MessageHandlerActionView::Play(response.audio@)))
}

/// Handlers are sent the audio of delivered responses in order, each one only what it has asked for.
/// `databases` are the states from before the first delivery up to behind the last one.
pub proof fn delivered_audio_is_sent_in_order(
    responses: Seq<SpeechSynthesisResponse>,
    databases: Seq<HandlerDatabaseView>,
    id: u128,
)
    requires
        databases.len() == responses.len() + 1,
        forall|i: int|
            0 <= i < responses.len() ==> databases[i].offered(
                responses[i].id,
                MessageHandlerActionView::Play(responses[i].audio@),
                #[trigger] databases[i + 1],
            ),
        databases[0].handlers.contains_key(id),
    ensures
        databases.last().handlers.contains_key(id),
        databases.last().handlers[id].actions() == databases[0].handlers[id].actions()
            + offered_to(
            responses.map_values(|response: SpeechSynthesisResponse| playback_offer(response)),
            id,
        ),
{
    let offers = responses.map_values(|response: SpeechSynthesisResponse| playback_offer(response));
    assert forall|i: int| 0 <= i < offers.len() implies databases[i].after_offer(
        offers[i],
        #[trigger] databases[i + 1],
    ) by {
        assert(databases[i].offered(
            responses[i].id,
            MessageHandlerActionView::Play(responses[i].audio@),
            databases[i + 1],
        ));
    }
    offers_arrive_in_order(offers, databases, id);
}

/// What was sent to a task of speech recognition is all that was sent through its sender, byte for
/// byte and in order, and its receivers are those of the sender.
proof fn recognition_shows_all_that_was_sent(spawned: SpawnedSpeechRecognition)
    ensures
        spawned.sent().len() == audio_log(spawned.sender).len(),
        forall|i: int|
            0 <= i < spawned.sent().len() ==> (#[trigger] spawned.sent()[i]) == (
                audio_log(spawned.sender)[i].0.audio@,
                audio_log(spawned.sender)[i].1,
            ),
        spawned.receivers() == audio_receivers(spawned.sender),
{
}

/// What was sent to a task of speech synthesis is all that was sent through its sender, in order, and
/// its receivers are those of the sender.
proof fn synthesis_shows_all_that_was_sent(spawned: SpawnedSpeechSynthesis)
    ensures
        spawned.sent().len() == speech_log(spawned.sender).len(),
        forall|i: int|
            0 <= i < spawned.sent().len() ==> (#[trigger] spawned.sent()[i]) == (
                speech_log(spawned.sender)[i].0@,
                speech_log(spawned.sender)[i].1,
            ),
        spawned.receivers() == speech_receivers(spawned.sender),
{
}

} // verus!
