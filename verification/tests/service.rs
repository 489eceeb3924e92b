use ems::config::{
    Cli, Config, ConfigFile, LoadedFile, SocketAddress, SpeechRecognitionDriver,
    SpeechSynthesisDriver,
};
use ems::gcs::driver::{CloudSpeechError, GoogleCloudSpeech};
use ems::gctts::driver::{CloudTextToSpeechError, GoogleCloudTextToSpeech};
use ems::recognition::{
    RecognitionOptions, SpeechRecognitionConfig, SpeechRecognitionRequest,
    SpeechRecognitionServiceConfig,
};
use ems::service::{
    forward, go_on, spawn_service, spawn_speech_recognition, spawn_speech_synthesis, ForwardEvent,
    ForwardStep, Service, ServiceEvent, ServiceSpawner, ServiceStep,
};
use ems::synthesis::SpeechSynthesisRequest;

fn config(drivers: bool) -> Config {
    let file = ConfigFile {
        threads: None,
        audiosocket_addr: SocketAddress::V4 { ipv4: 0, port: 1 },
        websocket_addr: SocketAddress::V4 { ipv4: 0, port: 2 },
        message_timeout: None,
        recognition_config_timeout: None,
        recognition_driver: if drivers {
            Some(SpeechRecognitionDriver::GoogleCloudSpeech)
        } else {
            None
        },
        synthesis_driver: if drivers {
            Some(SpeechSynthesisDriver::GoogleCloudTextToSpeech)
        } else {
            None
        },
        gcs: None,
        gctts: None,
        recognition_fallback: Some(RecognitionOptions {
            language: String::from("pl-PL"),
            profanity_filter: None,
            punctuation: Some(true),
        }),
        loopback_audio: None,
    };
    Config::try_from(Cli::new(None), LoadedFile::Parsed(file)).unwrap()
}

/// A service that is started again after an even error.
struct Restarting;

impl Service for Restarting {
    type Input = ();

    type Output = ();

    type Error = u32;

    fn restartable(error: &u32) -> bool {
        error % 2 == 0
    }
}

/// A service that does not say anything of restarts.
struct Plain;

impl Service for Plain {
    type Input = ();

    type Output = ();

    type Error = u32;
}

#[test]
fn services_are_not_restarted_by_default() {
    assert!(!Plain::restartable(&2));
    assert!(matches!(
        spawn_service::<Plain>(ServiceEvent::Forwarded(Err(2))),
        ServiceStep::Finish(Err(2))
    ));
}

#[test]
fn restart_is_up_to_the_service() {
    assert!(matches!(
        go_on(ServiceEvent::Forwarded(Err(1)), true),
        ServiceStep::<u32>::Configure
    ));
    assert!(matches!(
        go_on(ServiceEvent::Forwarded(Err(1)), false),
        ServiceStep::<u32>::Finish(Err(1))
    ));
    assert!(matches!(
        go_on(ServiceEvent::Streaming(Err(1)), true),
        ServiceStep::<u32>::Finish(Err(1))
    ));
}

/// Forward what comes from a service, and tell how far that goes.
fn forwarded(events: Vec<ForwardEvent<u8, u32>>) -> (Vec<u8>, Option<Result<(), u32>>) {
    let mut delivered = Vec::new();
    for event in events {
        match forward(event) {
            ForwardStep::Deliver(response) => delivered.push(response),
            ForwardStep::Next => {}
            ForwardStep::Finish(result) => return (delivered, Some(result)),
        }
    }
    (delivered, None)
}

#[test]
fn responses_are_forwarded_up_to_the_first_error() {
    let answered = |response| ForwardEvent::Answered(Ok(response));
    assert_eq!(
        forwarded(vec![
            answered(Some(1)),
            answered(None),
            answered(Some(2)),
            ForwardEvent::Answered(Err(7)),
            answered(Some(3)),
        ]),
        (vec![1, 2], Some(Err(7)))
    );
    assert_eq!(
        forwarded(vec![answered(Some(1)), ForwardEvent::Ended, answered(Some(2))]),
        (vec![1], Some(Ok(())))
    );
    assert_eq!(forwarded(vec![answered(Some(1))]), (vec![1], None));
}

#[test]
fn services_go_through_their_steps() {
    assert!(matches!(
        spawn_service::<Restarting>(ServiceEvent::Configured(Ok(()))),
        ServiceStep::Stream
    ));
    assert!(matches!(
        spawn_service::<Restarting>(ServiceEvent::Streaming(Ok(()))),
        ServiceStep::Forward
    ));
    assert!(matches!(
        spawn_service::<Restarting>(ServiceEvent::Forwarded(Ok(()))),
        ServiceStep::Finish(Ok(()))
    ));
}

#[test]
fn only_running_services_are_restarted() {
    assert!(matches!(
        spawn_service::<Restarting>(ServiceEvent::Forwarded(Err(2))),
        ServiceStep::Configure
    ));
    assert!(matches!(
        spawn_service::<Restarting>(ServiceEvent::Forwarded(Err(3))),
        ServiceStep::Finish(Err(3))
    ));
    assert!(matches!(
        spawn_service::<Restarting>(ServiceEvent::Configured(Err(2))),
        ServiceStep::Finish(Err(2))
    ));
    assert!(matches!(
        spawn_service::<Restarting>(ServiceEvent::Streaming(Err(2))),
        ServiceStep::Finish(Err(2))
    ));
}

#[test]
fn google_services_are_not_restarted() {
    let error = || CloudSpeechError::CallError(String::from("x"));
    assert!(!GoogleCloudSpeech::restartable(&error()));
    assert!(matches!(
        spawn_service::<GoogleCloudSpeech>(ServiceEvent::Forwarded(Err(error()))),
        ServiceStep::Finish(Err(CloudSpeechError::CallError(_)))
    ));
    let error = || CloudTextToSpeechError::CallError(String::from("x"));
    assert!(!GoogleCloudTextToSpeech::restartable(&error()));
    assert!(matches!(
        spawn_service::<GoogleCloudTextToSpeech>(ServiceEvent::Forwarded(Err(error()))),
        ServiceStep::Finish(Err(CloudTextToSpeechError::CallError(_)))
    ));
}

#[test]
fn recognition_is_spawned_with_a_driver() {
    let (with, without) = (config(true), config(false));
    let service_config = |application_config| SpeechRecognitionServiceConfig {
        application_config,
        recognition_config: SpeechRecognitionConfig::default(),
    };
    assert!(spawn_speech_recognition(1, service_config(&without)).is_none());
    let mut task = spawn_speech_recognition(1, service_config(&with)).unwrap();
    assert_eq!(task.config.recognition_config.language, "en-US");
    task.spawned.send(SpeechRecognitionRequest { audio: vec![1] });
    task.spawned.send(SpeechRecognitionRequest { audio: vec![2] });
    assert_eq!(task.requests.try_recv().unwrap().audio, [1]);
    assert_eq!(task.requests.try_recv().unwrap().audio, [2]);
    drop(task.requests);
    task.spawned.send(SpeechRecognitionRequest { audio: vec![3] });
}

#[test]
fn synthesis_is_spawned_with_a_driver() {
    let (with, without) = (config(true), config(false));
    assert!(spawn_speech_synthesis(&without).is_none());
    let mut task = spawn_speech_synthesis(&with).unwrap();
    task.spawned.send(SpeechSynthesisRequest {
        id: 5,
        ssml: String::from("Hi"),
        language_code: String::from("en-US"),
        gender: None,
        speaking_rate: None,
        pitch: None,
    });
    let request = task.requests.try_recv().unwrap();
    assert_eq!(request.id, 5);
    assert_eq!(request.ssml, "Hi");
}

#[test]
fn spawner_uses_the_fallback_config() {
    let (with, without) = (config(true), config(false));
    assert!(ServiceSpawner::new(1, &without).spawn_from_config().0.is_none());
    let task = ServiceSpawner::new(1, &with).spawn_from_config().0.unwrap();
    assert_eq!(task.config.recognition_config.language, "pl-PL");
    assert!(task.config.recognition_config.punctuation);
}
