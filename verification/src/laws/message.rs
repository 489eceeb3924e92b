use vstd::arithmetic::div_mod::lemma_div_denominator;
use vstd::arithmetic::power::{lemma_pow_positive, pow};
use vstd::prelude::*;

use crate::message::{
    be_bytes, be_value, decode, encode, frame_is_read_back, ErrorType, Message, MessageError,
};
use crate::server::{IoError, IoErrorKind, ServerError};
use crate::stream::{MessageStream, ReadEvent, ReadStep};

verus! {

/// The numbers that stand for errors in a payload.
pub open spec fn stands_for(code: u8, error: ErrorType) -> bool {
    match error {
        ErrorType::NoError => code == 0,
        ErrorType::Hangup => code == 1,
        ErrorType::FrameForwarding => code == 2,
        ErrorType::Memory => code == 4,
    }
}

/// The byte of a big-endian number at an index.
pub open spec fn byte_at(value: nat, len: nat, index: int) -> int {
    (value as int / pow(256, (len - 1 - index) as nat)) % 256
}

/// The bytes of a big-endian number, one by one.
proof fn lemma_be_bytes_at(value: nat, len: nat)
    ensures
        be_bytes(value, len).len() == len,
        forall|i: int|
            0 <= i < len ==> (#[trigger] be_bytes(value, len)[i]) == byte_at(value, len, i),
    decreases len,
{
    if len > 0 {
        let rest = (len - 1) as nat;
        lemma_be_bytes_at(value / 256, rest);
        assert forall|i: int| 0 <= i < len implies (#[trigger] be_bytes(value, len)[i]) == byte_at(
            value,
            len,
            i,
        ) by {
            if i < rest {
                let power = (rest - 1 - i) as nat;
                assert(be_bytes(value, len)[i] == be_bytes(value / 256, rest)[i]);
                lemma_pow_positive(256, power);
                assert(pow(256, (len - 1 - i) as nat) == 256 * pow(256, power)) by {
                    reveal(pow);
                }
                lemma_div_denominator(value as int, 256, pow(256, power));
            } else {
                assert(pow(256, 0) == 1) by {
                    reveal(pow);
                }
            }
        }
    }
}

/// The number that big-endian bytes make, byte by byte.
proof fn lemma_be_value_at(bytes: Seq<u8>)
    ensures
        be_value(bytes) < pow(256, bytes.len()),
        forall|i: int|
            0 <= i < bytes.len() ==> (#[trigger] bytes[i]) == byte_at(
                be_value(bytes),
                bytes.len(),
                i,
            ),
    decreases bytes.len(),
{
    reveal(pow);
    if bytes.len() > 0 {
        let rest = bytes.drop_last();
        let value = be_value(bytes) as int;
        lemma_be_value_at(rest);
        assert(value == be_value(rest) * 256 + bytes.last());
        assert(pow(256, bytes.len()) == 256 * pow(256, rest.len()));
        assert(value < 256 * pow(256, rest.len())) by (nonlinear_arith)
            requires
                value == be_value(rest) * 256 + bytes.last(),
                be_value(rest) < pow(256, rest.len()),
                bytes.last() < 256,
        ;
        assert(value / 256 == be_value(rest)) by (nonlinear_arith)
            requires
                value == be_value(rest) * 256 + bytes.last(),
                bytes.last() < 256,
        ;
        assert(value % 256 == bytes.last());
        assert forall|i: int| 0 <= i < bytes.len() implies (#[trigger] bytes[i]) == byte_at(
            be_value(bytes),
            bytes.len(),
            i,
        ) by {
            if i < rest.len() {
                let power = (rest.len() - 1 - i) as nat;
                assert(bytes[i] == rest[i]);
                lemma_pow_positive(256, power);
                assert(pow(256, (bytes.len() - 1 - i) as nat) == 256 * pow(256, power));
                lemma_div_denominator(value, 256, pow(256, power));
            }
        }
    }
}

/// Writing a message succeeds unless its audio is longer than a frame can announce, and gives the
/// type, the length and the payload of the message.
pub proof fn written_frame(message: Message, result: Result<Vec<u8>, MessageError>)
    requires
        call_ensures(encode, (&message,), result),
    ensures
        match message {
            Message::Terminate => result matches Ok(bytes) && bytes@ == seq![0u8, 0u8, 0u8],
            Message::Silence => result matches Ok(bytes) && bytes@ == seq![2u8, 0u8, 0u8],
            Message::Identifier(id) => {
                &&& result matches Ok(bytes)
                &&& bytes@.len() == 19
                &&& bytes@[0] == 1 && bytes@[1] == 0 && bytes@[2] == 16
                &&& forall|i: int|
                    0 <= i < 16 ==> (#[trigger] bytes@[3 + i]) == byte_at(id as nat, 16, i)
            },
            Message::Audio(Some(audio)) => if audio@.len() <= 65535 {
                &&& result matches Ok(bytes)
                &&& bytes@.len() == audio@.len() + 3
                &&& bytes@[0] == 0x10 && bytes@[1] * 256 + bytes@[2] == audio@.len()
                &&& bytes@.skip(3) == audio@
            } else {
                result == Err::<Vec<u8>, MessageError>(MessageError::LengthIsTooLarge)
            },
            Message::Audio(None) => result matches Ok(bytes) && bytes@ == seq![0x10u8, 0u8, 0u8],
            Message::Error(None) => result matches Ok(bytes) && bytes@ == seq![0xffu8, 0u8, 0u8],
            Message::Error(Some(error)) => {
                &&& result matches Ok(bytes)
                &&& bytes@.len() == 4
                &&& bytes@[0] == 0xff && bytes@[1] == 0 && bytes@[2] == 1
                &&& stands_for(bytes@[3], error)
            },
        },
{
    let payload = message@.payload();
    lemma_be_bytes_at(payload.len(), 2);
    reveal_with_fuel(be_bytes, 3);
    if let Message::Identifier(id) = message {
        lemma_be_bytes_at(id as nat, 16);
        if let Ok(bytes) = result {
            assert forall|i: int| 0 <= i < 16 implies (#[trigger] bytes@[3 + i]) == byte_at(
                id as nat,
                16,
                i,
            ) by {
                assert(bytes@[3 + i] == be_bytes(id as nat, 16)[i]);
            }
        }
    }
    if let Message::Audio(Some(audio)) = message {
        if let Ok(bytes) = result {
            assert(bytes@.skip(3) =~= audio@);
        }
    }
}

/// Every type byte and every payload is read as the message that it stands for, or refused for the
/// reason that holds.
pub proof fn read_message(
    message_type: u8,
    payload: Option<&[u8]>,
    result: Result<Message, MessageError>,
)
    requires
        call_ensures(decode, (message_type, payload), result),
    ensures
        message_type == 0 ==> result == Ok::<Message, MessageError>(Message::Terminate),
        message_type == 2 ==> result == Ok::<Message, MessageError>(Message::Silence),
        message_type == 0x10 ==> match payload {
            Some(bytes) => {
                &&& result matches Ok(Message::Audio(Some(audio)))
                &&& audio@ == bytes@
            },
            None => result == Ok::<Message, MessageError>(Message::Audio(None)),
        },
        message_type == 1 ==> match payload {
            Some(bytes) => if bytes@.len() == 16 {
                &&& result matches Ok(Message::Identifier(id))
                &&& forall|i: int|
                    0 <= i < 16 ==> (#[trigger] bytes@[i]) == byte_at(id as nat, 16, i)
            } else {
                result == Err::<Message, MessageError>(MessageError::InvalidIdentifier)
            },
            None => result == Err::<Message, MessageError>(MessageError::EmptyPayload),
        },
        message_type == 0xff ==> match payload {
            Some(bytes) => if bytes@.len() == 0 {
                result == Ok::<Message, MessageError>(Message::Error(None))
            } else if bytes@[0] == 0 || bytes@[0] == 1 || bytes@[0] == 2 || bytes@[0] == 4 {
                &&& result matches Ok(Message::Error(Some(error)))
                &&& stands_for(bytes@[0], error)
            } else {
                result == Err::<Message, MessageError>(MessageError::IncorrectErrorCode)
            },
            None => result == Ok::<Message, MessageError>(Message::Error(None)),
        },
        !(message_type == 0 || message_type == 1 || message_type == 2 || message_type == 0x10
            || message_type == 0xff) ==> result == Err::<Message, MessageError>(
            MessageError::IncorrectMessageType,
        ),
{
    if message_type == 1 {
        if let Some(bytes) = payload {
            if bytes@.len() == 16 {
                lemma_be_value_at(bytes@);
                assert(pow(256, 16) == u128::MAX + 1) by {
                    reveal_with_fuel(pow, 17);
                }
            }
        }
    }
}

/// Do two messages say the same?
pub open spec fn says_the_same(message: Message, other: Message) -> bool {
    match (message, other) {
        (Message::Audio(Some(audio)), Message::Audio(Some(other))) => audio@ == other@,
        _ => message == other,
    }
}

/// Two messages say the same exactly if their views are equal.
pub proof fn view_tells_messages_apart(message: Message, other: Message)
    ensures
        message@ == other@ <==> says_the_same(message, other),
{
}

/// Whoever writes a message and has the other side receive its frame, byte for byte, gets the same
/// message across.
///
/// The one exception is audio of no bytes, which is received as absent.
pub proof fn written_message_is_received(
    message: Message,
    frame: Vec<u8>,
    fresh: MessageStream,
    first: &mut MessageStream,
    second: &mut MessageStream,
    third: &mut MessageStream,
    length: u16,
    payload: Vec<u8>,
    steps: (ReadStep, ReadStep, ReadStep),
)
    requires
        !(message matches Message::Audio(Some(audio)) && audio@.len() == 0),
        call_ensures(encode, (&message,), Ok(frame)),
        call_ensures(MessageStream::new, (), fresh),
        *old(first) == fresh,
        call_ensures(MessageStream::recv, (first, ReadEvent::MessageType(frame@[0])), steps.0),
        length == frame@[1] * 256 + frame@[2],
        *old(second) == *final(first),
        call_ensures(MessageStream::recv, (second, ReadEvent::Length(length)), steps.1),
        payload@ == frame@.skip(3),
        *old(third) == *final(second),
        call_ensures(MessageStream::recv, (third, ReadEvent::Payload(payload)), steps.2),
    ensures
        steps.0 == ReadStep::ReadLength,
        steps.1 == ReadStep::ReadPayload(length),
        length == payload@.len(),
        steps.2 matches ReadStep::Done(Ok(received)) && says_the_same(received, message),
{
    written_frame(message, Ok(frame));
    reveal_with_fuel(be_bytes, 3);
    frame_is_read_back(message@);
    assert(payload@ =~= message@.payload());
}

/// A stream takes a message for what its type byte and its payload, as much of it as has come, stand
/// for. An empty payload counts as absent. Then it is ready for the next message.
pub proof fn received_message(
    message_type: u8,
    length: u16,
    payload: Vec<u8>,
    bytes: &[u8],
    fresh: MessageStream,
    first: &mut MessageStream,
    second: &mut MessageStream,
    third: &mut MessageStream,
    steps: (ReadStep, ReadStep, ReadStep),
    read: Result<Message, MessageError>,
    next: ReadStep,
)
    requires
        call_ensures(MessageStream::new, (), fresh),
        *old(first) == fresh,
        call_ensures(MessageStream::recv, (first, ReadEvent::MessageType(message_type)), steps.0),
        *old(second) == *final(first),
        call_ensures(MessageStream::recv, (second, ReadEvent::Length(length)), steps.1),
        *old(third) == *final(second),
        call_ensures(MessageStream::recv, (third, ReadEvent::Payload(payload)), steps.2),
        bytes@ == payload@,
        call_ensures(
            decode,
            (
                message_type,
                if payload@.len() == 0 {
                    None
                } else {
                    Some(bytes)
                },
            ),
            read,
        ),
        call_ensures(MessageStream::step, (&*final(third),), next),
    ensures
        steps.0 == ReadStep::ReadLength,
        steps.1 == ReadStep::ReadPayload(length),
        next == ReadStep::ReadType,
        match read {
            Ok(message) => steps.2 matches ReadStep::Done(Ok(received)) && says_the_same(
                received,
                message,
            ),
            Err(error) => steps.2 == ReadStep::Done(Err(ServerError::AudioSocketError(error))),
        },
{
}

/// Wherever a stream is in a message, a failed read ends it with the failure, and the next message
/// starts with its type byte.
pub proof fn failed_read(stream: &mut MessageStream, error: IoError, step: ReadStep, next: ReadStep)
    requires
        call_ensures(MessageStream::recv, (stream, ReadEvent::Failed(error)), step),
        call_ensures(MessageStream::step, (&*final(stream),), next),
    ensures
        step == ReadStep::Done(Err(ServerError::IoError(error))),
        next == ReadStep::ReadType,
{
}

/// A fresh stream starts with the type byte. If that does not come in time, the wait is over; once it
/// has come, the rest of the message is not bounded in time.
pub proof fn elapsed_wait(
    fresh: MessageStream,
    stream: &mut MessageStream,
    other: &mut MessageStream,
    later: &mut MessageStream,
    message_type: u8,
    steps: (ReadStep, ReadStep, ReadStep, ReadStep),
)
    requires
        call_ensures(MessageStream::new, (), fresh),
        call_ensures(MessageStream::step, (&fresh,), steps.0),
        *old(stream) == fresh,
        call_ensures(MessageStream::recv, (stream, ReadEvent::Elapsed), steps.1),
        *old(other) == fresh,
        call_ensures(MessageStream::recv, (other, ReadEvent::MessageType(message_type)), steps.2),
        *old(later) == *final(other),
        call_ensures(MessageStream::recv, (later, ReadEvent::Elapsed), steps.3),
    ensures
        steps.0 == ReadStep::ReadType,
        steps.1 == ReadStep::Done(Err(ServerError::TimeoutError)),
        steps.2 == ReadStep::ReadLength,
        steps.3 == ReadStep::ReadLength,
{
}

/// A client has gone away exactly if the pipe is broken, the stream has ended, or the connection was
/// reset.
pub proof fn disconnecting_kinds(error: IoError, result: bool)
    requires
        call_ensures(IoError::is_disconnect, (&error,), result),
    ensures
        match error.kind {
            IoErrorKind::BrokenPipe => result,
            IoErrorKind::UnexpectedEof => result,
            IoErrorKind::ConnectionReset => result,
            IoErrorKind::Other => !result,
        },
{
}

/// A stream that is done with a message or an error goes on with the next type byte. What was not asked
/// for is ignored, and the same is asked for again.
pub proof fn reads_that_do_not_fit_are_ignored(
    stream: &mut MessageStream,
    asked: ReadStep,
    event: ReadEvent,
    step: ReadStep,
    next: ReadStep,
)
    requires
        call_ensures(MessageStream::step, (&*old(stream),), asked),
        call_ensures(MessageStream::recv, (stream, event), step),
        call_ensures(MessageStream::step, (&*final(stream),), next),
    ensures
        asked !is Done,
        step is Done ==> next == ReadStep::ReadType,
        step !is Done ==> step == next,
        match event {
            ReadEvent::Failed(_) => false,
            ReadEvent::Elapsed => !(asked is ReadType),
            ReadEvent::MessageType(_) => !(asked is ReadType),
            ReadEvent::Length(_) => !(asked is ReadLength),
            ReadEvent::Payload(_) => !(asked is ReadPayload),
        } ==> {
            &&& final(stream)@ == old(stream)@
            &&& step == asked
            &&& next == asked
        },
{
}

/// The text of a message error says what is wrong with the message.
pub proof fn message_error_texts(error: MessageError, text: String)
    requires
        call_ensures(MessageError::describe, (&error,), text),
    ensures
        text@ == match error {
            MessageError::EmptyPayload =>
                "Message contains empty payload, despite having type that doesn't support it"@,
            MessageError::InvalidIdentifier => "UUID provided in payload is invalid"@,
            MessageError::IncorrectMessageType => "Payload contained invalid message type"@,
            MessageError::IncorrectErrorCode => "Payload contained invalid error code"@,
            MessageError::InvalidRawMessage =>
                "Provided slice doesn't contain correct AudioSocket message"@,
            MessageError::IncorrectLengthProvided => "AudioSocket message contains invalid length"@,
            MessageError::LengthIsTooLarge => "Unable to cast payload length to 16-bit integer"@,
        },
{
}

/// The text of a server error says what has failed. It tells what the system says about it in full,
/// and the text of a message error likewise.
pub proof fn server_error_texts(
    error: ServerError,
    text: String,
    reason: MessageError,
    reason_text: String,
)
    requires
        call_ensures(ServerError::describe, (&error,), text),
        error matches ServerError::AudioSocketError(inner) ==> inner == reason,
        call_ensures(MessageError::describe, (&reason,), reason_text),
    ensures
        text@ == match error {
            ServerError::IoError(error) => "IO error: "@ + error.description@,
            ServerError::AudioSocketError(_) => "AudioSocket error: "@ + reason_text@,
            ServerError::TimeoutError =>
                "Exceeded max await time for next AudioSocket message: deadline has elapsed"@,
            ServerError::ClientDisconnected(_) => "Connection was closed by client"@,
        },
{
}

} // verus!
