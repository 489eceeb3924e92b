use ems::action::MessageHandlerAction;
use ems::channel::{action_channel, speech_channel};
use ems::db::HandlerDatabase;
use ems::recognition::RecognitionOptions;
use ems::service::SpawnedSpeechSynthesis;
use ems::synthesis::{NumberBits, SynthesisVoiceGender};
use ems::ws::{
    accept_frame, accept_message, after_sending, send_notifications, send_transcriptions, WsAction, WsContent,
    WsError, WsFrame, WsMessage, WsNotification, WsStep,
};

const TEST_ID: u128 = 0;

#[test]
fn accept_invalid_ws_message() {
    let text = format!(
        r#"
            {{
                "id": "{}",
                "data": "InvalidMessageData"
            }}
        "#,
        uuid::Uuid::from_u128(TEST_ID)
    );
    let content = match accept_frame(Ok(WsFrame::Text(text.clone()))) {
        WsStep::Read(WsContent::Text(content)) => content,
        _ => panic!("message is not read"),
    };
    assert_eq!(content, text);

    let mut database = HandlerDatabase::default();
    let (sender, actions) = action_channel();
    database.add_handler(TEST_ID, sender);

    let invalid = WsError::InvalidMessageReceived(String::from("unknown variant"));
    let reported = accept_message(&mut database, &mut None, Err(invalid)).unwrap();
    assert_eq!(reported.describe(), "Invalid message received: unknown variant");
    assert!(actions.try_recv().is_err());
}

#[test]
fn accept_ws_hangup() {
    let mut database = HandlerDatabase::default();
    let (sender, receiver) = action_channel();
    database.add_handler(TEST_ID, sender);

    let message = WsMessage { id: TEST_ID, data: WsAction::Hangup };
    assert!(accept_message(&mut database, &mut None, Ok(message)).is_none());

    let recv = receiver.recv().unwrap();
    assert!(matches!(recv, MessageHandlerAction::Hangup));
}

#[test]
fn send_ws_transcriptions() {
    let mut database = HandlerDatabase::default();
    database.add_transcription(TEST_ID, String::from("Hello, world"));

    let ws_message = send_transcriptions(&mut database).unwrap();
    assert!(
        matches!(ws_message, WsMessage { id, data: WsAction::Transcription(text) } if id == TEST_ID && text == String::from("Hello, world"))
    );
    assert!(send_transcriptions(&mut database).is_none());
}

#[test]
fn send_ws_notifications() {
    let mut database = HandlerDatabase::default();
    assert!(send_notifications(&mut database).is_none());
    database.add_notification(WsNotification::RecognitionConfigRequest(7));
    let message = send_notifications(&mut database).unwrap();
    assert_eq!(message.id, 7);
    assert!(matches!(message.data, WsAction::RecognitionConfigRequest));
    assert!(send_notifications(&mut database).is_none());
}

#[test]
fn frames_are_sorted_out() {
    assert!(matches!(
        accept_frame(Ok(WsFrame::Binary(vec![1, 2]))),
        WsStep::Read(WsContent::Binary(bytes)) if bytes == [1, 2]
    ));
    assert!(matches!(accept_frame(Ok(WsFrame::Control)), WsStep::Skip));
    assert!(matches!(WsFrame::Control.content(), Err(WsError::UnsupportedMessageType)));
    match accept_frame(Err(String::from("closed"))) {
        WsStep::Fail(error) => assert_eq!(error.describe(), "Internal WebSocket error: closed"),
        _ => panic!("error is not reported"),
    }
    assert_eq!(
        WsError::UnsupportedMessageType.describe(),
        "Unsupported WebSocket message type"
    );
}

#[test]
fn recognition_config_goes_to_the_handler() {
    let mut database = HandlerDatabase::default();
    let (sender, receiver) = action_channel();
    database.add_handler(3, sender);
    let options = RecognitionOptions {
        language: String::from("en-GB"),
        profanity_filter: None,
        punctuation: Some(true),
    };
    let message = WsMessage { id: 3, data: WsAction::RecognitionConfig(options) };
    assert!(accept_message(&mut database, &mut None, Ok(message)).is_none());
    match receiver.try_recv().unwrap() {
        MessageHandlerAction::RecognitionConfig(config) => {
            assert_eq!(config.language, "en-GB");
            assert!(!config.profanity_filter);
            assert!(config.punctuation);
        }
        _ => panic!("config is not provided"),
    }
}

fn synthesize(gender: Option<&str>) -> WsMessage {
    WsMessage {
        id: 4,
        data: WsAction::Synthesize {
            ssml: String::from("Hello, world"),
            language_code: String::from("en-US"),
            gender: gender.map(String::from),
            speaking_rate: Some(NumberBits { bits: 2.0f64.to_bits() }),
            pitch: None,
        },
    }
}

#[test]
fn speech_goes_to_synthesis() {
    let mut database = HandlerDatabase::default();
    let (sender, requests) = speech_channel();
    let mut synthesis = Some(SpawnedSpeechSynthesis::new(sender));
    for gender in [Some("neutral"), Some("male"), Some("female"), Some("robot"), None] {
        assert!(accept_message(&mut database, &mut synthesis, Ok(synthesize(gender))).is_none());
    }
    let request = requests.try_recv().unwrap();
    assert_eq!(request.id, 4);
    assert_eq!(request.ssml, "Hello, world");
    assert_eq!(request.language_code, "en-US");
    assert_eq!(request.gender, Some(SynthesisVoiceGender::Neutral));
    assert_eq!(request.speaking_rate, Some(NumberBits { bits: 2.0f64.to_bits() }));
    assert_eq!(request.pitch, None);
    assert_eq!(requests.try_recv().unwrap().gender, Some(SynthesisVoiceGender::Male));
    assert_eq!(requests.try_recv().unwrap().gender, Some(SynthesisVoiceGender::Female));
    assert_eq!(requests.try_recv().unwrap().gender, Some(SynthesisVoiceGender::Any));
    assert_eq!(requests.try_recv().unwrap().gender, None);
}

#[test]
fn speech_without_synthesis_is_dropped() {
    let mut database = HandlerDatabase::default();
    assert!(accept_message(&mut database, &mut None, Ok(synthesize(None))).is_none());
}

#[test]
fn responses_of_ems_are_ignored() {
    let mut database = HandlerDatabase::default();
    let (sender, receiver) = action_channel();
    database.add_handler(3, sender);
    for data in [WsAction::Transcription(String::from("x")), WsAction::RecognitionConfigRequest] {
        assert!(accept_message(&mut database, &mut None, Ok(WsMessage { id: 3, data })).is_none());
    }
    assert!(receiver.try_recv().is_err());
    assert_eq!(database.recv_transcription(), None);
    assert_eq!(database.recv_notification(), None);
}

#[test]
fn sending_goes_on_until_it_fails() {
    let mut database = HandlerDatabase::default();
    for (id, text) in [(1, "one"), (2, "two"), (1, "three")] {
        database.add_transcription(id, String::from(text));
    }
    let mut results = vec![Ok(()), Err(String::from("closed"))].into_iter();
    let mut got = Vec::new();
    let error = loop {
        let message = send_transcriptions(&mut database).unwrap();
        let result = results.next().unwrap();
        if result.is_ok() {
            got.push(message.id);
        }
        if let Some(error) = after_sending(result) {
            break error;
        }
    };
    assert_eq!(got, [1]);
    assert_eq!(error.describe(), "Internal WebSocket error: closed");
    assert_eq!(database.recv_transcription(), Some((1, String::from("three"))));
}

/// Accept the items of a connection, of which a text or binary `h` is a hangup.
fn accepted(items: Vec<Result<WsFrame, String>>) -> usize {
    let mut database = HandlerDatabase::default();
    let (sender, receiver) = action_channel();
    database.add_handler(TEST_ID, sender);
    for item in items {
        let received = match accept_frame(item) {
            WsStep::Read(WsContent::Text(text)) if text == "h" => {
                Ok(WsMessage { id: TEST_ID, data: WsAction::Hangup })
            }
            WsStep::Read(WsContent::Binary(bytes)) if bytes == b"h" => {
                Ok(WsMessage { id: TEST_ID, data: WsAction::Hangup })
            }
            WsStep::Read(_) => Err(WsError::InvalidMessageReceived(String::from("malformed"))),
            WsStep::Skip => continue,
            WsStep::Fail(error) => Err(error),
        };
        accept_message(&mut database, &mut None, received);
    }
    receiver.try_iter().count()
}

#[test]
fn invalid_items_change_nothing() {
    let text = || Ok(WsFrame::Text(String::from("h")));
    assert_eq!(
        accepted(vec![
            Err(String::from("broken")),
            text(),
            Ok(WsFrame::Control),
            Ok(WsFrame::Text(String::from("x"))),
            Ok(WsFrame::Binary(b"h".to_vec())),
            Ok(WsFrame::Binary(vec![1])),
        ]),
        accepted(vec![text(), text()])
    );
}
