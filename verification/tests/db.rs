use ems::action::MessageHandlerAction;
use ems::channel::action_channel;
use ems::db::HandlerDatabase;
use ems::recognition::{SpeechRecognitionResponse, SpeechRecognitionSink};
use ems::synthesis::{SpeechSynthesisResponse, SpeechSynthesisSink};
use ems::ws::WsNotification;

#[test]
fn transcriptions_are_received_in_order() {
    let mut database = HandlerDatabase::default();
    assert_eq!(database.recv_transcription(), None);
    database.add_transcription(1, String::from("one"));
    database.add_transcription(2, String::from("two"));
    database.add_transcription(1, String::from("three"));
    assert_eq!(database.recv_transcription(), Some((1, String::from("one"))));
    database.add_transcription(1, String::from("four"));
    assert_eq!(database.recv_transcription(), Some((2, String::from("two"))));
    assert_eq!(database.recv_transcription(), Some((1, String::from("three"))));
    assert_eq!(database.recv_transcription(), Some((1, String::from("four"))));
    assert_eq!(database.recv_transcription(), None);
}

#[test]
fn notifications_are_received_in_order() {
    let mut database = HandlerDatabase::default();
    database.add_notification(WsNotification::RecognitionConfigRequest(3));
    database.add_transcription(9, String::from("other queue"));
    database.add_notification(WsNotification::RecognitionConfigRequest(4));
    assert_eq!(
        database.recv_notification(),
        Some(WsNotification::RecognitionConfigRequest(3))
    );
    assert_eq!(
        database.recv_notification(),
        Some(WsNotification::RecognitionConfigRequest(4))
    );
    assert_eq!(database.recv_notification(), None);
    assert_eq!(database.recv_transcription(), Some((9, String::from("other queue"))));
}

#[test]
fn actions_reach_their_handler_in_order() {
    let mut database = HandlerDatabase::default();
    let (first, first_actions) = action_channel();
    let (second, second_actions) = action_channel();
    database.add_handler(1, first);
    database.add_handler(2, second);
    assert_eq!(database.send(1, MessageHandlerAction::Play(vec![1])), Some(()));
    assert_eq!(database.send(2, MessageHandlerAction::Hangup), Some(()));
    assert_eq!(database.send(1, MessageHandlerAction::Hangup), Some(()));
    assert!(matches!(first_actions.try_recv(), Ok(MessageHandlerAction::Play(audio)) if audio == [1]));
    assert!(matches!(first_actions.try_recv(), Ok(MessageHandlerAction::Hangup)));
    assert!(first_actions.try_recv().is_err());
    assert!(matches!(second_actions.try_recv(), Ok(MessageHandlerAction::Hangup)));
    assert!(second_actions.try_recv().is_err());
}

#[test]
fn nobody_gets_actions_for_unknown_handlers() {
    let mut database = HandlerDatabase::default();
    let (sender, actions) = action_channel();
    database.add_handler(1, sender);
    assert_eq!(database.send(2, MessageHandlerAction::Hangup), None);
    assert!(actions.try_recv().is_err());
    database.remove_handler(1);
    assert_eq!(database.send(1, MessageHandlerAction::Hangup), None);
    assert!(database.is_empty());
}

#[test]
fn handler_without_receiver_takes_nothing() {
    let mut database = HandlerDatabase::default();
    let (sender, actions) = action_channel();
    database.add_handler(1, sender);
    drop(actions);
    assert_eq!(database.send(1, MessageHandlerAction::Hangup), None);
    assert!(!database.is_empty());
}

#[test]
fn recognition_results_become_transcriptions() {
    let mut database = HandlerDatabase::default();
    let sink = SpeechRecognitionSink::new(6);
    sink.start_send(
        &mut database,
        SpeechRecognitionResponse { transcription: String::from("Hello") },
    );
    assert_eq!(database.recv_transcription(), Some((6, String::from("Hello"))));
}

#[test]
fn synthesis_results_are_played() {
    let mut database = HandlerDatabase::default();
    let (sender, actions) = action_channel();
    database.add_handler(6, sender);
    let sink = SpeechSynthesisSink::new();
    sink.start_send(&mut database, SpeechSynthesisResponse { id: 6, audio: vec![5, 6] });
    sink.start_send(&mut database, SpeechSynthesisResponse { id: 7, audio: vec![8] });
    assert!(matches!(actions.try_recv(), Ok(MessageHandlerAction::Play(audio)) if audio == [5, 6]));
    assert!(actions.try_recv().is_err());
}
