use vstd::prelude::*;

use flume::{Receiver, Sender};

use crate::action::MessageHandlerAction;
use crate::channel::{
    action_channel, action_log, action_receivers, audio_channel, audio_log, audio_receivers,
    speech_channel, speech_log, speech_receivers,
};
use crate::config::{Config, SpeechRecognitionDriver, SpeechSynthesisDriver};
use crate::db::HandlerDatabase;
use crate::gcs::driver::{CloudSpeechError, GoogleCloudSpeech};
use crate::gctts::driver::{CloudTextToSpeechError, GoogleCloudTextToSpeech};
use crate::laws::config::same_config;
use crate::recognition::{
    SpeechRecognitionConfig, SpeechRecognitionRequest, SpeechRecognitionResponse,
    SpeechRecognitionServiceConfig, SpeechRecognitionSink,
};
use crate::service::{
    forward, go_on, spawn_service, spawn_speech_recognition, spawn_speech_synthesis, ForwardEvent,
    ForwardStep, RecognitionTask, Service, ServiceEvent, ServiceSpawner, ServiceStep,
    SpawnedSpeechRecognition, SpawnedSpeechSynthesis, SynthesisTask,
};
use crate::synthesis::SpeechSynthesisRequest;

verus! {

/// Audio is sent to speech recognition as it is, behind what was sent before.
pub proof fn audio_is_sent_as_it_is(
    spawned: &mut SpawnedSpeechRecognition,
    request: SpeechRecognitionRequest,
)
    requires
        call_ensures(SpawnedSpeechRecognition::send, (spawned, request), ()),
    ensures
        final(spawned).receivers() == old(spawned).receivers(),
        final(spawned).sent().len() == old(spawned).sent().len() + 1,
        final(spawned).sent().drop_last() == old(spawned).sent(),
        final(spawned).sent().last().0 == request.audio@,
{
    assert(final(spawned).sent().drop_last() =~= old(spawned).sent());
}

/// Pieces of audio are sent to speech recognition all together, oldest first, each as it is.
pub proof fn waiting_audio_is_sent_in_order(
    spawned: &mut SpawnedSpeechRecognition,
    pending: Vec<SpeechRecognitionRequest>,
)
    requires
        call_ensures(SpawnedSpeechRecognition::send_all, (spawned, pending), ()),
    ensures
        final(spawned).receivers() == old(spawned).receivers(),
        final(spawned).sent().len() == old(spawned).sent().len() + pending@.len(),
        final(spawned).sent().take(old(spawned).sent().len() as int) == old(spawned).sent(),
        forall|i: int|
            0 <= i < pending@.len() ==> (#[trigger] final(spawned).sent()[old(spawned).sent().len()
                + i]).0 == pending@[i].audio@,
{
    let count = old(spawned).sent().len();
    assert(final(spawned).audio().len() == final(spawned).sent().len());
    assert(final(spawned).sent().take(count as int) =~= old(spawned).sent());
    assert forall|i: int| 0 <= i < pending@.len() implies (#[trigger] final(spawned).sent()[count
        + i]).0 == pending@[i].audio@ by {
        assert(final(spawned).audio()[count + i] == final(spawned).sent()[count + i].0);
    }
}

/// A request is sent to speech synthesis as it is, behind what was sent before.
pub proof fn speech_is_sent_as_it_is(
    spawned: &mut SpawnedSpeechSynthesis,
    request: SpeechSynthesisRequest,
)
    requires
        call_ensures(SpawnedSpeechSynthesis::send, (spawned, request), ()),
    ensures
        final(spawned).receivers() == old(spawned).receivers(),
        final(spawned).sent().len() == old(spawned).sent().len() + 1,
        final(spawned).sent().drop_last() == old(spawned).sent(),
        final(spawned).sent().last().0 == request@,
{
    assert(final(spawned).sent().drop_last() =~= old(spawned).sent());
}

/// The view of a request for speech synthesis has all that it asks for.
pub proof fn view_shows_all_of_the_request(request: SpeechSynthesisRequest)
    ensures
        request@.id == request.id,
        request@.ssml == request.ssml@,
        request@.language_code == request.language_code@,
        request@.gender == request.gender,
        request@.speaking_rate == request.speaking_rate,
        request@.pitch == request.pitch,
{
}

/// A task belongs to the channel of the sender that it was made of, and a channel that is opened has
/// both ends and nothing in it.
pub proof fn tasks_belong_to_their_channels(
    audio: (Sender<SpeechRecognitionRequest>, Receiver<SpeechRecognitionRequest>),
    recognition: SpawnedSpeechRecognition,
    speech: (Sender<SpeechSynthesisRequest>, Receiver<SpeechSynthesisRequest>),
    synthesis: SpawnedSpeechSynthesis,
    actions: (Sender<MessageHandlerAction>, Receiver<MessageHandlerAction>),
)
    requires
        call_ensures(action_channel, (), actions),
        call_ensures(audio_channel, (), audio),
        call_ensures(SpawnedSpeechRecognition::new, (audio.0,), recognition),
        call_ensures(speech_channel, (), speech),
        call_ensures(SpawnedSpeechSynthesis::new, (speech.0,), synthesis),
    ensures
        recognition.sent().len() == 0,
        recognition.receivers().contains(audio.1),
        recognition.receivers() == audio_receivers(audio.0),
        synthesis.sent().len() == 0,
        synthesis.receivers().contains(speech.1),
        synthesis.receivers() == speech_receivers(speech.0),
        audio_log(audio.0).len() == 0,
        speech_log(speech.0).len() == 0,
        action_log(actions.0).len() == 0,
        action_receivers(actions.0).contains(actions.1),
{
}

/// There is speech recognition exactly if a driver is configured. It has been sent nothing, gets what
/// will be sent to it, keeps the config that it was set up with, and its results become
/// transcriptions of its call.
pub proof fn recognition_is_set_up_for_its_call<'c>(
    id: u128,
    config: SpeechRecognitionServiceConfig<'c>,
    driver: &Option<SpeechRecognitionDriver>,
    task: Option<RecognitionTask<'c>>,
    sink: SpeechRecognitionSink,
    database: &mut HandlerDatabase,
    response: SpeechRecognitionResponse,
)
    requires
        call_ensures(Config::recognition_driver, (config.application_config,), driver),
        call_ensures(spawn_speech_recognition, (id, config), task),
        task matches Some(task) ==> sink == task.sink,
        call_ensures(SpeechRecognitionSink::start_send, (&sink, database, response), ()),
    ensures
        task is Some <==> *driver is Some,
        task matches Some(task) ==> {
            &&& task.spawned.sent().len() == 0
            &&& task.spawned.receivers().contains(task.requests)
            &&& same_config(task.config.recognition_config, config.recognition_config)
            &&& task.config.application_config == config.application_config
            &&& final(database)@.transcriptions.last() == (id, response.transcription@)
        },
{
}

/// There is speech synthesis exactly if a driver is configured. It has been sent nothing, gets what
/// will be sent to it, and keeps the config.
pub proof fn synthesis_is_set_up<'c>(
    config: &'c Config,
    driver: &Option<SpeechSynthesisDriver>,
    task: Option<SynthesisTask<'c>>,
)
    requires
        call_ensures(Config::synthesis_driver, (config,), driver),
        call_ensures(spawn_speech_synthesis, (config,), task),
    ensures
        task is Some <==> *driver is Some,
        task matches Some(task) ==> {
            &&& task.spawned.sent().len() == 0
            &&& task.spawned.receivers().contains(task.requests)
            &&& task.config == config
        },
{
}

/// A spawner sets speech recognition up for its own call, with the fallback of the application, or the
/// default for English without one.
pub proof fn spawner_uses_the_fallback<'c>(
    id: u128,
    config: &'c Config,
    spawner: ServiceSpawner<'c>,
    driver: &Option<SpeechRecognitionDriver>,
    fallback: &Option<SpeechRecognitionConfig>,
    services: (Option<RecognitionTask<'c>>,),
    sink: SpeechRecognitionSink,
    database: &mut HandlerDatabase,
    response: SpeechRecognitionResponse,
)
    requires
        call_ensures(ServiceSpawner::<'c>::new, (id, config), spawner),
        call_ensures(ServiceSpawner::<'c>::spawn_from_config, (spawner,), services),
        call_ensures(Config::recognition_driver, (config,), driver),
        call_ensures(Config::fallback_recognition_config, (config,), fallback),
        services.0 matches Some(task) ==> sink == task.sink,
        call_ensures(SpeechRecognitionSink::start_send, (&sink, database, response), ()),
    ensures
        services.0 is Some <==> *driver is Some,
        services.0 matches Some(task) ==> {
            let used = task.config.recognition_config;
            &&& match *fallback {
                Some(fallback) => same_config(used, fallback),
                None => used.language@ == "en-US"@ && !used.profanity_filter && !used.punctuation,
            }
            &&& task.config.application_config == config
            &&& task.spawned.sent().len() == 0
            &&& task.spawned.receivers().contains(task.requests)
            &&& final(database)@.transcriptions.last() == (id, response.transcription@)
        },
{
}

/// A service is configured, streams, and forwards in this order. An error while it starts is final. An
/// error while it runs is final too, unless it is to be restarted, and nothing else restarts it.
pub proof fn service_goes_on_as_told<E>(
    event: ServiceEvent<E>,
    restart: bool,
    step: ServiceStep<E>,
)
    requires
        call_ensures(go_on::<E>, (event, restart), step),
    ensures
        match event {
            ServiceEvent::Configured(Ok(_)) => step == ServiceStep::<E>::Stream,
            ServiceEvent::Streaming(Ok(_)) => step == ServiceStep::<E>::Forward,
            ServiceEvent::Forwarded(Ok(_)) => step == ServiceStep::<E>::Finish(Ok(())),
            ServiceEvent::Configured(Err(error)) => step == ServiceStep::<E>::Finish(Err(error)),
            ServiceEvent::Streaming(Err(error)) => step == ServiceStep::<E>::Finish(Err(error)),
            ServiceEvent::Forwarded(Err(error)) => {
                &&& restart ==> step == ServiceStep::<E>::Configure
                &&& !restart ==> step == ServiceStep::<E>::Finish(Err(error))
            },
        },
{
}

/// A service is run in order, and restarted only if it says so of an error while it runs.
pub proof fn service_is_run_in_order<S: Service>(
    event: ServiceEvent<S::Error>,
    step: ServiceStep<S::Error>,
)
    requires
        call_ensures(spawn_service::<S>, (event,), step),
    ensures
        match event {
            ServiceEvent::Configured(Ok(_)) => step == ServiceStep::<S::Error>::Stream,
            ServiceEvent::Streaming(Ok(_)) => step == ServiceStep::<S::Error>::Forward,
            ServiceEvent::Forwarded(Ok(_)) => step == ServiceStep::<S::Error>::Finish(Ok(())),
            ServiceEvent::Configured(Err(error)) => step == ServiceStep::<S::Error>::Finish(
                Err(error),
            ),
            ServiceEvent::Streaming(Err(error)) => step == ServiceStep::<S::Error>::Finish(
                Err(error),
            ),
            ServiceEvent::Forwarded(Err(error)) => {
                ||| step == ServiceStep::<S::Error>::Configure && call_ensures(
                    S::restartable,
                    (&error,),
                    true,
                )
                ||| step == ServiceStep::<S::Error>::Finish(Err(error)) && call_ensures(
                    S::restartable,
                    (&error,),
                    false,
                )
            },
        },
{
}

/// Neither service of Google is restarted after any error.
pub proof fn google_services_are_not_restarted(
    speech: CloudSpeechError,
    speech_answer: bool,
    text: CloudTextToSpeechError,
    text_answer: bool,
)
    requires
        call_ensures(GoogleCloudSpeech::restartable, (&speech,), speech_answer),
        call_ensures(GoogleCloudTextToSpeech::restartable, (&text,), text_answer),
    ensures
        !speech_answer,
        !text_answer,
{
}

/// Every response is delivered as it is, an answer without one is skipped, and the first error or the
/// end is the result.
pub proof fn responses_are_delivered<T, E>(event: ForwardEvent<T, E>, step: ForwardStep<T, E>)
    requires
        call_ensures(forward::<T, E>, (event,), step),
    ensures
        forall|response: T|
            event == ForwardEvent::<T, E>::Answered(Ok(Some(response))) <==> step == ForwardStep::<
                T,
                E,
            >::Deliver(response),
        event == ForwardEvent::<T, E>::Answered(Ok(None)) <==> step == ForwardStep::<T, E>::Next,
        forall|error: E|
            event == ForwardEvent::<T, E>::Answered(Err(error)) <==> step == ForwardStep::<
                T,
                E,
            >::Finish(Err(error)),
        event == ForwardEvent::<T, E>::Ended <==> step == ForwardStep::<T, E>::Finish(Ok(())),
{
}

} // verus!
