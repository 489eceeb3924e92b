use ems::channel::{action_channel, audio_channel};
use ems::config::{Cli, Config, ConfigFile, LoadedFile, SocketAddress, SpeechRecognitionDriver};
use ems::db::HandlerDatabase;
use ems::handler::{
    play, prepare_recognition_service, send_pending, write_audio, ActionEvent, ActionStep, AnonymousMessageHandler,
    AnonymousStep, IdentifiableMessageHandler, MessageHandlerAction, MessageStep, CHUNK_SIZE,
    TICK_MILLIS,
};
use ems::message::{encode, Message, MessageError};
use ems::recognition::{RecognitionOptions, SpeechRecognitionConfig};
use ems::server::{IoError, IoErrorKind, ServerError};
use ems::service::SpawnedSpeechRecognition;
use ems::stream::{MessageStream, ReadEvent, ReadStep};
use ems::ws::WsNotification;

const NIL: u128 = 0;

fn test_file() -> ConfigFile {
    ConfigFile {
        threads: None,
        audiosocket_addr: SocketAddress::V4 { ipv4: 0x7f00_0001, port: 12345 },
        websocket_addr: SocketAddress::V4 { ipv4: 0x7f00_0001, port: 12346 },
        message_timeout: Some(10),
        recognition_config_timeout: Some(10),
        recognition_driver: None,
        synthesis_driver: None,
        gcs: None,
        gctts: None,
        recognition_fallback: None,
        loopback_audio: Some(false),
    }
}

fn config_of(file: ConfigFile) -> Config {
    Config::try_from(Cli::new(None), LoadedFile::Parsed(file)).unwrap()
}

/// Receive the message that a client has written.
fn receive(stream: &mut MessageStream, bytes: &[u8]) -> Result<Message, ServerError> {
    let length = u16::from_be_bytes([bytes[1], bytes[2]]);
    assert!(matches!(stream.step(), ReadStep::ReadType));
    assert!(matches!(stream.recv(ReadEvent::MessageType(bytes[0])), ReadStep::ReadLength));
    match stream.recv(ReadEvent::Length(length)) {
        ReadStep::ReadPayload(announced) => assert_eq!(announced, length),
        _ => panic!("payload is not asked for"),
    }
    match stream.recv(ReadEvent::Payload(bytes[3..].to_vec())) {
        ReadStep::Done(result) => result,
        _ => panic!("message is not complete"),
    }
}

/// Connect a client that sends the nil identifier.
fn upgraded<'c>(
    config: &'c Config,
    database: &mut HandlerDatabase,
    stream: &mut MessageStream,
) -> IdentifiableMessageHandler<'c> {
    let identifier = encode(&Message::Identifier(NIL)).unwrap();
    let handler = AnonymousMessageHandler::new(config);
    match handler.listen(receive(stream, &identifier)) {
        AnonymousStep::Upgrade(id) => {
            assert_eq!(id, NIL);
            handler.upgrade(id, database)
        }
        _ => panic!("handler is not upgraded"),
    }
}

#[test]
fn upgrades_on_identifier() {
    let config = config_of(test_file());
    let mut database = HandlerDatabase::default();
    let mut stream = MessageStream::new();
    let handler = upgraded(&config, &mut database, &mut stream);
    handler.listen(&mut database);

    let identifier = encode(&Message::Identifier(NIL)).unwrap();
    let received = receive(&mut stream, &identifier);
    let step = IdentifiableMessageHandler::handle_awaiting(
        NIL,
        &config,
        &mut database,
        &mut Vec::new(),
        received,
    );
    assert!(matches!(step, MessageStep::IdentifierIgnored));

    let received = receive(&mut stream, &identifier);
    let step = IdentifiableMessageHandler::handle_message(
        NIL,
        &config,
        &mut database,
        &mut None,
        received,
    );
    assert!(matches!(step, MessageStep::IdentifierIgnored));
}

#[test]
fn terminates() {
    let config = config_of(test_file());
    let mut database = HandlerDatabase::default();
    let mut stream = MessageStream::new();
    let handler = upgraded(&config, &mut database, &mut stream);
    handler.listen(&mut database);

    let terminate = encode(&Message::Terminate).unwrap();
    let received = receive(&mut stream, &terminate);
    let step = IdentifiableMessageHandler::handle_message(
        NIL,
        &config,
        &mut database,
        &mut None,
        received,
    );
    let error = match step {
        MessageStep::Stop(error) => error,
        _ => panic!("connection goes on"),
    };
    assert_eq!(error, ServerError::ClientDisconnected(None));
    IdentifiableMessageHandler::finish(Err(error)).unwrap();

    assert!(!database.is_empty());
    handler.close(&mut database);
    assert!(database.is_empty());
}

#[test]
fn hangups() {
    let config = config_of(test_file());
    let mut database = HandlerDatabase::default();
    let mut stream = MessageStream::new();
    let handler = upgraded(&config, &mut database, &mut stream);

    database.send(NIL, MessageHandlerAction::Hangup).unwrap();

    let mut awaits_config = true;
    let action = handler.channel().try_recv().unwrap();
    let step = IdentifiableMessageHandler::handle_action(&mut awaits_config, action).unwrap();
    match step {
        ActionStep::Write(buf) => assert_eq!(buf, [0, 0, 0]),
        _ => panic!("nothing is written"),
    }
    assert!(awaits_config);
}

#[test]
fn transmits_audio() {
    let config = config_of(test_file());
    let mut database = HandlerDatabase::default();
    let mut stream = MessageStream::new();
    let handler = upgraded(&config, &mut database, &mut stream);

    database.send(NIL, MessageHandlerAction::Play(vec![1, 2, 3, 4, 5])).unwrap();
    database.send(NIL, MessageHandlerAction::Play(Vec::from([1; 320]))).unwrap();
    database.send(NIL, MessageHandlerAction::Play(Vec::from([1; 320 * 2]))).unwrap();

    let mut written: Vec<Vec<u8>> = Vec::new();
    let mut awaits_config = true;
    while let Ok(action) = handler.channel().try_recv() {
        match IdentifiableMessageHandler::handle_action(&mut awaits_config, action).unwrap() {
            ActionStep::Play(frames) => written.extend(frames),
            _ => panic!("audio is not played"),
        }
    }

    let mut padded = [0; 323];
    padded[..8].copy_from_slice(&[16, 1, 64, 1, 2, 3, 4, 5]);
    let mut full = [1; 323];
    full[..3].copy_from_slice(&[16, 1, 64]);

    assert_eq!(written.len(), 4);
    assert_eq!(written[0], padded);
    assert_eq!(written[1], full);
    assert_eq!(written[2], full);
    assert_eq!(written[3], full);
}

#[test]
fn chunk_constants() {
    assert_eq!(CHUNK_SIZE, 320);
    assert_eq!(TICK_MILLIS, 20);
}

#[test]
fn empty_audio_is_not_played() {
    assert!(play(&Vec::new()).unwrap().is_empty());
}

#[test]
fn chunks_hold_all_audio_and_zeros() {
    let audio: Vec<u8> = (0..1000u32).map(|i| (i % 251) as u8).collect();
    let frames = play(&audio).unwrap();
    assert_eq!(frames.len(), 4);
    let mut played: Vec<u8> = Vec::new();
    for frame in &frames {
        assert_eq!(frame.len(), 323);
        assert_eq!(frame[..3], [16, 1, 64]);
        played.extend_from_slice(&frame[3..]);
    }
    assert_eq!(played[..1000], audio[..]);
    assert_eq!(played[1000..], [0; 280]);
}

#[test]
fn one_byte_over_a_chunk_takes_two() {
    let frames = play(&vec![7; 321]).unwrap();
    assert_eq!(frames.len(), 2);
    assert_eq!(frames[1][3], 7);
    assert_eq!(frames[1][4..], [0; 319]);
}

#[test]
fn too_long_chunk_is_refused() {
    assert_eq!(
        write_audio(vec![0; 65536]),
        Err(ServerError::AudioSocketError(MessageError::LengthIsTooLarge))
    );
    assert_eq!(write_audio(vec![0; 65535]).unwrap().len(), 65538);
}

#[test]
fn anonymous_handler_ignores_other_messages() {
    let config = config_of(test_file());
    let handler = AnonymousMessageHandler::new(&config);
    assert!(matches!(handler.listen(Ok(Message::Terminate)), AnonymousStep::Wait));
    assert!(matches!(handler.listen(Ok(Message::Silence)), AnonymousStep::Wait));
    assert!(matches!(handler.listen(Ok(Message::Audio(Some(vec![1])))), AnonymousStep::Wait));
    assert!(matches!(handler.listen(Ok(Message::Error(None))), AnonymousStep::Wait));
    assert!(matches!(handler.listen(Ok(Message::Identifier(7))), AnonymousStep::Upgrade(7)));
    assert!(matches!(
        handler.listen(Err(ServerError::TimeoutError)),
        AnonymousStep::Fail(ServerError::TimeoutError)
    ));
}

#[test]
fn listening_asks_for_a_config() {
    let config = config_of(test_file());
    let mut database = HandlerDatabase::default();
    let handler = IdentifiableMessageHandler::new(5, &config, &mut database);
    handler.listen(&mut database);
    assert_eq!(
        database.recv_notification(),
        Some(WsNotification::RecognitionConfigRequest(5))
    );
    assert_eq!(database.recv_notification(), None);
}

#[test]
fn only_the_first_config_is_handed_over() {
    let mut awaits_config = true;
    let first = MessageHandlerAction::RecognitionConfig(SpeechRecognitionConfig {
        language: String::from("ru-RU"),
        profanity_filter: true,
        punctuation: false,
    });
    let second = MessageHandlerAction::RecognitionConfig(SpeechRecognitionConfig::default());
    match IdentifiableMessageHandler::handle_action(&mut awaits_config, first).unwrap() {
        ActionStep::Provide(config) => {
            assert_eq!(config.language, "ru-RU");
            assert!(config.profanity_filter);
            assert!(!config.punctuation);
        }
        _ => panic!("config is not handed over"),
    }
    assert!(!awaits_config);
    let step = IdentifiableMessageHandler::handle_action(&mut awaits_config, second).unwrap();
    assert!(matches!(step, ActionStep::Ignore));
    assert!(!awaits_config);
}

#[test]
fn failed_write_ends_listening() {
    let mut awaits_config = true;
    let mut listen = |event| IdentifiableMessageHandler::action_listen(&mut awaits_config, event);
    assert!(matches!(
        listen(ActionEvent::Received(MessageHandlerAction::Hangup)),
        ActionStep::Write(frame) if frame == [0, 0, 0]
    ));
    assert!(matches!(listen(ActionEvent::Written(Ok(()))), ActionStep::Ignore));
    assert!(matches!(
        listen(ActionEvent::Received(MessageHandlerAction::Play(vec![1]))),
        ActionStep::Play(frames) if frames.len() == 1
    ));
    match listen(ActionEvent::Written(Err(io_error(IoErrorKind::BrokenPipe)))) {
        ActionStep::Stop(error) => {
            assert_eq!(error, ServerError::IoError(io_error(IoErrorKind::BrokenPipe)));
            assert!(IdentifiableMessageHandler::finish(Err(error)).is_err());
        }
        _ => panic!("handler goes on"),
    }
}

#[test]
fn closed_channel_ends_listening() {
    let step = IdentifiableMessageHandler::action_listen(&mut true, ActionEvent::Closed);
    assert!(matches!(step, ActionStep::Stop(ServerError::ClientDisconnected(None))));
}

fn stopped(received: Result<Message, ServerError>) -> Option<ServerError> {
    let config = config_of(test_file());
    let mut database = HandlerDatabase::default();
    match IdentifiableMessageHandler::handle_message(
        NIL,
        &config,
        &mut database,
        &mut None,
        received,
    ) {
        MessageStep::Stop(error) => Some(error),
        _ => None,
    }
}

fn io_error(kind: IoErrorKind) -> IoError {
    IoError { kind, description: String::from("gone") }
}

#[test]
fn lost_connections_are_disconnects() {
    for kind in [IoErrorKind::BrokenPipe, IoErrorKind::UnexpectedEof, IoErrorKind::ConnectionReset] {
        let error = stopped(Err(ServerError::IoError(io_error(kind)))).unwrap();
        assert_eq!(error, ServerError::ClientDisconnected(Some(io_error(kind))));
        assert_eq!(IdentifiableMessageHandler::finish(Err(error)), Ok(()));
    }
}

#[test]
fn other_errors_are_kept() {
    let error = stopped(Err(ServerError::IoError(io_error(IoErrorKind::Other)))).unwrap();
    assert_eq!(error, ServerError::IoError(io_error(IoErrorKind::Other)));
    assert_eq!(
        IdentifiableMessageHandler::finish(Err(error)),
        Err(ServerError::IoError(io_error(IoErrorKind::Other)))
    );
    assert_eq!(stopped(Err(ServerError::TimeoutError)), Some(ServerError::TimeoutError));
    assert_eq!(stopped(Ok(Message::Silence)), None);
    assert_eq!(stopped(Ok(Message::Audio(None))), None);
    assert_eq!(IdentifiableMessageHandler::finish(Ok(())), Ok(()));
    assert_eq!(
        IdentifiableMessageHandler::channel_closed(),
        ServerError::ClientDisconnected(None)
    );
}

#[test]
fn audio_goes_to_recognition() {
    let config = config_of(test_file());
    let mut database = HandlerDatabase::default();
    let handler = IdentifiableMessageHandler::new(NIL, &config, &mut database);
    let (sender, requests) = audio_channel();
    let mut recognition = Some(SpawnedSpeechRecognition::new(sender));
    let step = IdentifiableMessageHandler::handle_message(
        NIL,
        &config,
        &mut database,
        &mut recognition,
        Ok(Message::Audio(Some(vec![3, 4]))),
    );
    assert!(matches!(step, MessageStep::Continue));
    assert_eq!(requests.try_recv().unwrap().audio, [3, 4]);
    assert!(handler.channel().try_recv().is_err());
}

#[test]
fn audio_is_looped_back_without_recognition() {
    let config = config_of(ConfigFile { loopback_audio: Some(true), ..test_file() });
    let mut database = HandlerDatabase::default();
    let handler = IdentifiableMessageHandler::new(NIL, &config, &mut database);
    let received = encode(&Message::Audio(Some(vec![9; 320]))).unwrap();
    let step = IdentifiableMessageHandler::handle_message(
        NIL,
        &config,
        &mut database,
        &mut None,
        receive(&mut MessageStream::new(), &received),
    );
    assert!(matches!(step, MessageStep::Continue));
    let action = handler.channel().try_recv().unwrap();
    match IdentifiableMessageHandler::handle_action(&mut true, action).unwrap() {
        ActionStep::Play(frames) => assert_eq!(frames, vec![received]),
        _ => panic!("audio is not played"),
    }
}

#[test]
fn new_handler_replaces_an_old_one() {
    let config = config_of(test_file());
    let mut database = HandlerDatabase::default();
    let old = IdentifiableMessageHandler::new(NIL, &config, &mut database);
    let new = IdentifiableMessageHandler::new(NIL, &config, &mut database);
    assert_eq!(database.send(NIL, MessageHandlerAction::Hangup), Some(()));
    assert!(old.channel().try_recv().is_err());
    assert!(matches!(new.channel().try_recv(), Ok(MessageHandlerAction::Hangup)));
}

#[test]
fn recognition_needs_a_driver() {
    let config = config_of(test_file());
    assert!(prepare_recognition_service(1, &config, None).is_none());
}

#[test]
fn recognition_config_is_chosen_in_order() {
    let file = ConfigFile {
        recognition_driver: Some(SpeechRecognitionDriver::GoogleCloudSpeech),
        ..test_file()
    };
    let without_fallback = config_of(file);
    let task = prepare_recognition_service(1, &without_fallback, None).unwrap();
    assert_eq!(task.config.recognition_config.language, "en-US");
    assert!(!task.config.recognition_config.profanity_filter);
    assert!(!task.config.recognition_config.punctuation);

    let with_fallback = config_of(ConfigFile {
        recognition_driver: Some(SpeechRecognitionDriver::GoogleCloudSpeech),
        recognition_fallback: Some(RecognitionOptions {
            language: String::from("de-DE"),
            profanity_filter: Some(true),
            punctuation: None,
        }),
        ..test_file()
    });
    let task = prepare_recognition_service(1, &with_fallback, None).unwrap();
    assert_eq!(task.config.recognition_config.language, "de-DE");
    assert!(task.config.recognition_config.profanity_filter);
    assert!(!task.config.recognition_config.punctuation);

    let given = SpeechRecognitionConfig {
        language: String::from("fr-FR"),
        profanity_filter: false,
        punctuation: true,
    };
    let task = prepare_recognition_service(1, &with_fallback, Some(given)).unwrap();
    assert_eq!(task.config.recognition_config.language, "fr-FR");
    assert!(!task.config.recognition_config.profanity_filter);
    assert!(task.config.recognition_config.punctuation);
}

#[test]
fn audio_reaches_the_prepared_service() {
    let config = config_of(ConfigFile {
        recognition_driver: Some(SpeechRecognitionDriver::GoogleCloudSpeech),
        ..test_file()
    });
    let mut database = HandlerDatabase::default();
    let task = prepare_recognition_service(1, &config, None).unwrap();
    let mut recognition = Some(task.spawned);
    IdentifiableMessageHandler::handle_message(
        1,
        &config,
        &mut database,
        &mut recognition,
        Ok(Message::Audio(Some(vec![1, 2, 3]))),
    );
    assert_eq!(task.requests.try_recv().unwrap().audio, [1, 2, 3]);
}

#[test]
fn audio_waits_for_recognition() {
    let config = config_of(ConfigFile {
        recognition_driver: Some(SpeechRecognitionDriver::GoogleCloudSpeech),
        loopback_audio: Some(true),
        ..test_file()
    });
    let mut database = HandlerDatabase::default();
    let handler = IdentifiableMessageHandler::new(NIL, &config, &mut database);
    let mut pending = Vec::new();
    let messages =
        [Message::Audio(Some(vec![1])), Message::Silence, Message::Audio(Some(vec![2, 3]))];
    for message in messages {
        let step = IdentifiableMessageHandler::handle_awaiting(
            NIL,
            &config,
            &mut database,
            &mut pending,
            Ok(message),
        );
        assert!(matches!(step, MessageStep::Continue));
    }
    assert_eq!(pending.len(), 2);
    assert_eq!(handler.channel().try_iter().count(), 2);

    let task = prepare_recognition_service(NIL, &config, None).unwrap();
    let mut recognition = Some(task.spawned);
    send_pending(&mut recognition, pending);
    IdentifiableMessageHandler::handle_message(
        NIL,
        &config,
        &mut database,
        &mut recognition,
        Ok(Message::Audio(Some(vec![4]))),
    );
    let audio: Vec<Vec<u8>> = task.requests.try_iter().map(|request| request.audio).collect();
    assert_eq!(audio, [vec![1], vec![2, 3], vec![4]]);
}

#[test]
fn waiting_handler_ends_as_a_listening_one() {
    let config = config_of(test_file());
    let mut database = HandlerDatabase::default();
    let mut pending = Vec::new();
    let mut awaiting = |received| {
        IdentifiableMessageHandler::handle_awaiting(
            NIL,
            &config,
            &mut database,
            &mut pending,
            received,
        )
    };
    assert!(matches!(awaiting(Ok(Message::Identifier(NIL))), MessageStep::IdentifierIgnored));
    assert!(matches!(
        awaiting(Ok(Message::Terminate)),
        MessageStep::Stop(ServerError::ClientDisconnected(None))
    ));
    assert!(matches!(
        awaiting(Err(ServerError::IoError(io_error(IoErrorKind::UnexpectedEof)))),
        MessageStep::Stop(ServerError::ClientDisconnected(Some(_)))
    ));
    assert!(matches!(
        awaiting(Err(ServerError::TimeoutError)),
        MessageStep::Stop(ServerError::TimeoutError)
    ));
    send_pending(&mut None, pending);
}

#[test]
fn channels_are_apart() {
    let (first, first_actions) = action_channel();
    let (_second, second_actions) = action_channel();
    first.send(MessageHandlerAction::Hangup).unwrap();
    assert!(second_actions.try_recv().is_err());
    assert!(matches!(first_actions.try_recv(), Ok(MessageHandlerAction::Hangup)));
}
