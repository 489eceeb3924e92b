use ems::message::{decode, encode, ErrorType, Message, MessageError};
use ems::server::{IoError, IoErrorKind, ServerError};
use ems::stream::{MessageStream, ReadEvent, ReadStep};

/// Read a message out of bytes, of which the payload may be cut off.
fn recv(bytes: &[u8]) -> Result<Message, ServerError> {
    let mut stream = MessageStream::new();
    stream.recv(ReadEvent::MessageType(bytes[0]));
    let length = u16::from_be_bytes([bytes[1], bytes[2]]);
    match stream.recv(ReadEvent::Length(length)) {
        ReadStep::ReadPayload(announced) => assert_eq!(announced, length),
        _ => panic!("payload is not asked for"),
    }
    match stream.recv(ReadEvent::Payload(bytes[3..].to_vec())) {
        ReadStep::Done(result) => {
            assert!(matches!(stream.step(), ReadStep::ReadType));
            result
        }
        _ => panic!("message is not complete"),
    }
}

#[test]
fn audio_silence() {
    let silence = Message::Audio(Some(vec![0; 320]));
    let received = recv(&encode(&silence).unwrap()).unwrap();
    assert_eq!(received, silence);
}

#[test]
fn timeout() {
    let mut stream = MessageStream::new();
    assert!(matches!(stream.step(), ReadStep::ReadType));
    let step = stream.recv(ReadEvent::Elapsed);
    assert!(matches!(step, ReadStep::Done(Err(ServerError::TimeoutError))));
    assert!(matches!(stream.step(), ReadStep::ReadType));
}

#[test]
fn frames_are_read_back() {
    let messages = [
        Message::Terminate,
        Message::Identifier(0x0011_2233_4455_6677_8899_aabb_ccdd_eeff),
        Message::Identifier(u128::MAX),
        Message::Silence,
        Message::Audio(None),
        Message::Audio(Some(vec![1, 2, 3])),
        Message::Error(None),
        Message::Error(Some(ErrorType::NoError)),
        Message::Error(Some(ErrorType::Hangup)),
        Message::Error(Some(ErrorType::FrameForwarding)),
        Message::Error(Some(ErrorType::Memory)),
    ];
    for message in messages {
        assert_eq!(recv(&encode(&message).unwrap()).unwrap(), message);
    }
}

#[test]
fn audio_of_no_bytes_is_read_as_absent() {
    let frame = encode(&Message::Audio(Some(Vec::new()))).unwrap();
    assert_eq!(frame, [0x10, 0, 0]);
    assert_eq!(recv(&frame).unwrap(), Message::Audio(None));
}

#[test]
fn frame_bytes() {
    assert_eq!(encode(&Message::Terminate).unwrap(), [0, 0, 0]);
    assert_eq!(
        encode(&Message::Identifier(0x0102_0304_0506_0708_090a_0b0c_0d0e_0f10)).unwrap(),
        [1, 0, 16, 1, 2, 3, 4, 5, 6, 7, 8, 9, 10, 11, 12, 13, 14, 15, 16]
    );
    assert_eq!(encode(&Message::Silence).unwrap(), [2, 0, 0]);
    assert_eq!(encode(&Message::Audio(Some(vec![5, 6]))).unwrap(), [0x10, 0, 2, 5, 6]);
    assert_eq!(encode(&Message::Error(None)).unwrap(), [0xff, 0, 0]);
    assert_eq!(encode(&Message::Error(Some(ErrorType::NoError))).unwrap(), [0xff, 0, 1, 0]);
    assert_eq!(encode(&Message::Error(Some(ErrorType::Hangup))).unwrap(), [0xff, 0, 1, 1]);
    assert_eq!(
        encode(&Message::Error(Some(ErrorType::FrameForwarding))).unwrap(),
        [0xff, 0, 1, 2]
    );
    assert_eq!(encode(&Message::Error(Some(ErrorType::Memory))).unwrap(), [0xff, 0, 1, 4]);
    let longest = encode(&Message::Audio(Some(vec![1; 65535]))).unwrap();
    assert_eq!(longest[..4], [0x10, 0xff, 0xff, 1]);
    assert_eq!(longest.len(), 65538);
    assert_eq!(
        encode(&Message::Audio(Some(vec![1; 65536]))),
        Err(MessageError::LengthIsTooLarge)
    );
}

#[test]
fn payload_of_messages_without_one_is_ignored() {
    assert_eq!(recv(&[0, 0, 2, 8, 8]).unwrap(), Message::Terminate);
    assert_eq!(recv(&[2, 0, 2, 8, 8]).unwrap(), Message::Silence);
}

#[test]
fn short_payload_is_taken_as_it_is() {
    assert_eq!(recv(&[0x10, 0, 9, 4, 5]).unwrap(), Message::Audio(Some(vec![4, 5])));
    assert_eq!(
        recv(&[1, 0, 16, 4, 5]),
        Err(ServerError::AudioSocketError(MessageError::InvalidIdentifier))
    );
}

#[test]
fn invalid_messages_are_refused() {
    assert_eq!(
        recv(&[1, 0, 0]),
        Err(ServerError::AudioSocketError(MessageError::EmptyPayload))
    );
    assert_eq!(
        recv(&[1, 0, 17, 0, 0, 0, 0, 0, 0, 0, 0, 0, 0, 0, 0, 0, 0, 0, 0, 0]),
        Err(ServerError::AudioSocketError(MessageError::InvalidIdentifier))
    );
    assert_eq!(
        recv(&[0xff, 0, 1, 3]),
        Err(ServerError::AudioSocketError(MessageError::IncorrectErrorCode))
    );
    assert_eq!(recv(&[0xff, 0, 2, 1, 9]).unwrap(), Message::Error(Some(ErrorType::Hangup)));
    assert_eq!(
        recv(&[3, 0, 0]),
        Err(ServerError::AudioSocketError(MessageError::IncorrectMessageType))
    );
    assert_eq!(decode(0x11, Some(&[1])), Err(MessageError::IncorrectMessageType));
    assert_eq!(decode(0xff, Some(&[])), Ok(Message::Error(None)));
    assert_eq!(decode(0x10, Some(&[])), Ok(Message::Audio(Some(Vec::new()))));
    assert_eq!(decode(1, Some(&[])), Err(MessageError::InvalidIdentifier));
}

#[test]
fn every_type_byte_is_decoded_or_refused() {
    for message_type in 0..=255u8 {
        let known = [0, 2, 0x10, 0xff].contains(&message_type);
        assert_eq!(decode(message_type, None).is_ok(), known);
    }
}

#[test]
fn failed_read_ends_the_message() {
    let error = || IoError { kind: IoErrorKind::UnexpectedEof, description: String::from("eof") };
    let mut stream = MessageStream::new();
    stream.recv(ReadEvent::MessageType(0x10));
    match stream.recv(ReadEvent::Failed(error())) {
        ReadStep::Done(Err(ServerError::IoError(failed))) => assert_eq!(failed, error()),
        _ => panic!("failure is not reported"),
    }
    assert!(matches!(stream.step(), ReadStep::ReadType));
}

#[test]
fn unexpected_reads_are_ignored() {
    let mut stream = MessageStream::new();
    assert!(matches!(stream.recv(ReadEvent::Length(3)), ReadStep::ReadType));
    assert!(matches!(stream.recv(ReadEvent::MessageType(2)), ReadStep::ReadLength));
    assert!(matches!(stream.recv(ReadEvent::Elapsed), ReadStep::ReadLength));
    assert!(matches!(stream.recv(ReadEvent::Length(0)), ReadStep::ReadPayload(0)));
    assert!(matches!(stream.recv(ReadEvent::MessageType(9)), ReadStep::ReadPayload(0)));
    assert!(matches!(
        stream.recv(ReadEvent::Payload(Vec::new())),
        ReadStep::Done(Ok(Message::Silence))
    ));
}

#[test]
fn server_error_texts() {
    let gone = || IoError { kind: IoErrorKind::BrokenPipe, description: String::from("gone") };
    assert_eq!(ServerError::IoError(gone()).describe(), "IO error: gone");
    assert_eq!(
        ServerError::AudioSocketError(MessageError::EmptyPayload).describe(),
        "AudioSocket error: Message contains empty payload, despite having type that doesn't support it"
    );
    assert_eq!(
        ServerError::TimeoutError.describe(),
        "Exceeded max await time for next AudioSocket message: deadline has elapsed"
    );
    assert_eq!(
        ServerError::ClientDisconnected(Some(gone())).describe(),
        "Connection was closed by client"
    );
    assert_eq!(MessageError::InvalidIdentifier.describe(), "UUID provided in payload is invalid");
    assert_eq!(
        MessageError::IncorrectMessageType.describe(),
        "Payload contained invalid message type"
    );
    assert_eq!(MessageError::IncorrectErrorCode.describe(), "Payload contained invalid error code");
    assert_eq!(
        MessageError::InvalidRawMessage.describe(),
        "Provided slice doesn't contain correct AudioSocket message"
    );
    assert_eq!(
        MessageError::IncorrectLengthProvided.describe(),
        "AudioSocket message contains invalid length"
    );
    assert_eq!(
        MessageError::LengthIsTooLarge.describe(),
        "Unable to cast payload length to 16-bit integer"
    );
}
