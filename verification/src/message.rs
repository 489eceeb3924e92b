use vstd::prelude::*;

use audiosocket::AudioSocketError::{
    EmptyPayload, IncorrectErrorCode, IncorrectLengthProvided, IncorrectMessageType,
    InvalidIdentifier, InvalidRawMessage, LengthIsTooLarge,
};
use audiosocket::{ErrorType as WireError, Message as Wire, RawMessage, Type};
use uuid::Uuid;
use vstd::arithmetic::power::pow;

verus! {

/// Type byte of a message that closes the connection.
pub const TERMINATE: u8 = 0x00;

/// Type byte of a message that carries the identifier of a call.
pub const IDENTIFIER: u8 = 0x01;

/// Type byte of a message that reports silence on the line.
pub const SILENCE: u8 = 0x02;

/// Type byte of a message that carries audio.
pub const AUDIO: u8 = 0x10;

/// Type byte of a message that reports an error of the client.
pub const ERROR: u8 = 0xff;

/// Longest payload that the length field of a frame can announce.
pub const MAX_PAYLOAD: usize = 65535;

/// Type of error that a client may report.
#[derive(Debug, Clone, Copy, PartialEq, Eq, Structural)]
pub enum ErrorType {
    /// No error is present.
    NoError,

    /// The call has hung up.
    Hangup,

    /// An audio frame could not be forwarded.
    FrameForwarding,

    /// The client ran out of memory.
    Memory,
}

impl ErrorType {
    /// Number that stands for the error in a payload.
    pub open spec fn code(self) -> u8 {
        match self {
            ErrorType::NoError => 0,
            ErrorType::Hangup => 1,
            ErrorType::FrameForwarding => 2,
            ErrorType::Memory => 4,
        }
    }
}

/// The error that a number in a payload stands for.
pub open spec fn error_of_code(code: u8) -> Option<ErrorType> {
    if code == 0 {
        Some(ErrorType::NoError)
    } else if code == 1 {
        Some(ErrorType::Hangup)
    } else if code == 2 {
        Some(ErrorType::FrameForwarding)
    } else if code == 4 {
        Some(ErrorType::Memory)
    } else {
        None
    }
}

/// An AudioSocket message.
#[derive(Debug, PartialEq, Eq)]
pub enum Message {
    /// The connection was closed.
    Terminate,

    /// Identifier (UUID) of the call, as a big-endian number.
    Identifier(u128),

    /// There is silence on the line.
    Silence,

    /// Signed linear, 16-bit, 8kHz, mono PCM audio, if there is any.
    Audio(Option<Vec<u8>>),

    /// The client reports an error, possibly with its type.
    Error(Option<ErrorType>),
}

/// What a [`Message`] says.
pub ghost enum MessageView {
    Terminate,
    Identifier(u128),
    Silence,
    Audio(Option<Seq<u8>>),
    Error(Option<ErrorType>),
}

impl View for Message {
    type V = MessageView;

    open spec fn view(&self) -> MessageView {
        match *self {
            Message::Terminate => MessageView::Terminate,
            Message::Identifier(id) => MessageView::Identifier(id),
            Message::Silence => MessageView::Silence,
            Message::Audio(Some(audio)) => MessageView::Audio(Some(audio@)),
            Message::Audio(None) => MessageView::Audio(None),
            Message::Error(error) => MessageView::Error(error),
        }
    }
}

/// Reasons for which bytes are no AudioSocket message, or a message has no frame.
#[derive(Debug, Clone, Copy, PartialEq, Eq, Structural)]
pub enum MessageError {
    /// The payload is empty, and the type of the message does not allow that.
    EmptyPayload,

    /// The payload is no UUID.
    InvalidIdentifier,

    /// There is no such type of message.
    IncorrectMessageType,

    /// There is no such error code.
    IncorrectErrorCode,

    /// There are fewer bytes than the header of a message takes.
    InvalidRawMessage,

    /// The length field is incomplete.
    IncorrectLengthProvided,

    /// The payload is too long for the length field.
    LengthIsTooLarge,
}

/// The number that big-endian bytes stand for.
pub open spec fn be_value(bytes: Seq<u8>) -> nat
    decreases bytes.len(),
{
    if bytes.len() == 0 {
        0
    } else {
        be_value(bytes.drop_last()) * 256 + bytes.last() as nat
    }
}

/// The last `len` big-endian bytes of a number.
pub open spec fn be_bytes(value: nat, len: nat) -> Seq<u8>
    decreases len,
{
    if len == 0 {
        Seq::empty()
    } else {
        be_bytes(value / 256, (len - 1) as nat).push((value % 256) as u8)
    }
}

/// The message that a type byte and a payload stand for.
pub open spec fn decoded(
    message_type: u8,
    payload: Option<Seq<u8>>,
) -> Result<MessageView, MessageError> {
    if message_type == TERMINATE {
        Ok(MessageView::Terminate)
    } else if message_type == IDENTIFIER {
        match payload {
            None => Err(MessageError::EmptyPayload),
            Some(id) => if id.len() == 16 {
                Ok(MessageView::Identifier(be_value(id) as u128))
            } else {
                Err(MessageError::InvalidIdentifier)
            },
        }
    } else if message_type == SILENCE {
        Ok(MessageView::Silence)
    } else if message_type == AUDIO {
        Ok(MessageView::Audio(payload))
    } else if message_type == ERROR {
        match payload {
            Some(code) => if code.len() == 0 {
                Ok(MessageView::Error(None))
            } else {
                match error_of_code(code[0]) {
                    Some(error) => Ok(MessageView::Error(Some(error))),
                    None => Err(MessageError::IncorrectErrorCode),
                }
            },
            None => Ok(MessageView::Error(None)),
        }
    } else {
        Err(MessageError::IncorrectMessageType)
    }
}

impl MessageView {
    /// Type byte of the message.
    pub open spec fn message_type(self) -> u8 {
        match self {
            MessageView::Terminate => TERMINATE,
            MessageView::Identifier(_) => IDENTIFIER,
            MessageView::Silence => SILENCE,
            MessageView::Audio(_) => AUDIO,
            MessageView::Error(_) => ERROR,
        }
    }

    /// Payload of the message.
    pub open spec fn payload(self) -> Seq<u8> {
        match self {
            MessageView::Identifier(id) => be_bytes(id as nat, 16),
            MessageView::Audio(Some(audio)) => audio,
            MessageView::Error(Some(error)) => seq![error.code()],
            _ => Seq::empty(),
        }
    }

    /// Bytes of the message on the wire: type, length of the payload, payload.
    pub open spec fn frame(self) -> Seq<u8> {
        seq![self.message_type()] + be_bytes(self.payload().len(), 2) + self.payload()
    }
}

/// A payload as it is handed on: an empty one counts as absent.
pub open spec fn present(payload: Seq<u8>) -> Option<Seq<u8>> {
    if payload.len() == 0 {
        None
    } else {
        Some(payload)
    }
}

/// The bytes of a payload, if there is one.
pub open spec fn payload_view(payload: Option<&[u8]>) -> Option<Seq<u8>> {
    match payload {
        Some(bytes) => Some(bytes@),
        None => None,
    }
}

/// Errors of the `audiosocket` crate.
#[verifier::external_type_specification]
#[verifier::external_body]
pub struct ExAudioSocketError(audiosocket::AudioSocketError);

/// A message as the `audiosocket` crate tells it apart, with an error as its code.
enum Received {
    Terminate,
    Identifier(u128),
    Silence,
    Audio(Option<Vec<u8>>),
    Error(Option<u8>),
}

impl Received {
    /// What the message says.
    spec fn message(self) -> MessageView {
        match self {
            Received::Terminate => MessageView::Terminate,
            Received::Identifier(id) => MessageView::Identifier(id),
            Received::Silence => MessageView::Silence,
            Received::Audio(Some(audio)) => MessageView::Audio(Some(audio@)),
            Received::Audio(None) => MessageView::Audio(None),
            Received::Error(Some(code)) => MessageView::Error(error_of_code(code)),
            Received::Error(None) => MessageView::Error(None),
        }
    }
}

/// Calls `audiosocket::Message::try_from` on the raw message that `audiosocket::Type::try_from` and
/// `audiosocket::RawMessage::from_parts` make of a type byte and a payload.
///
/// Claims that it accepts exactly what [`decoded`] accepts, and gives the same message or the same
/// kind of error. The UUID is taken as the big-endian number `Uuid::as_u128`, an error type as its
/// code.
#[verifier::external_body]
fn raw_decode(
    message_type: u8,
    payload: Option<&[u8]>,
) -> (result: Result<Received, MessageError>)
    ensures
        match result {
            Ok(message) => decoded(message_type, payload_view(payload)) == Ok::<
                MessageView,
                MessageError,
            >(message.message()),
            Err(error) => decoded(message_type, payload_view(payload)) == Err::<
                MessageView,
                MessageError,
            >(error),
        },
{
    let kind = Type::try_from(message_type).map_err(IncorrectMessageType);
    kind.and_then(|kind| Wire::try_from(RawMessage::from_parts(kind, payload))).map(|message| match message {
        Wire::Terminate => Received::Terminate, Wire::Silence => Received::Silence,
        Wire::Identifier(id) => Received::Identifier(id.as_u128()),
        Wire::Audio(audio) => Received::Audio(audio.map(Vec::from)),
        Wire::Error(error) => Received::Error(error.map(u8::from)),
    }).map_err(|error| match error {
        EmptyPayload => MessageError::EmptyPayload,
        InvalidIdentifier(_) => MessageError::InvalidIdentifier,
        IncorrectMessageType(_) => MessageError::IncorrectMessageType,
        IncorrectErrorCode(_) => MessageError::IncorrectErrorCode,
        InvalidRawMessage => MessageError::InvalidRawMessage,
        IncorrectLengthProvided(_) => MessageError::IncorrectLengthProvided,
        LengthIsTooLarge(_) => MessageError::LengthIsTooLarge,
    })
}

/// The error that a code stands for. Any other code stands for no error.
fn error_type(code: u8) -> (error: Option<ErrorType>)
    ensures
        error == error_of_code(code),
{
    if code == 0 {
        Some(ErrorType::NoError)
    } else if code == 1 {
        Some(ErrorType::Hangup)
    } else if code == 2 {
        Some(ErrorType::FrameForwarding)
    } else if code == 4 {
        Some(ErrorType::Memory)
    } else {
        None
    }
}

/// Calls `TryFrom<audiosocket::Message>` for `Vec<u8>`.
///
/// Claims that it gives the frame of the message, and fails exactly if the payload is longer than
/// the length field can announce.
#[verifier::external_body]
fn raw_encode(message: &Message) -> (result: Result<Vec<u8>, audiosocket::AudioSocketError>)
    ensures
        match result {
            Ok(bytes) => message@.payload().len() <= MAX_PAYLOAD && bytes@ == message@.frame(),
            Err(_) => message@.payload().len() > MAX_PAYLOAD,
        },
{
    Vec::try_from(match message {
        Message::Terminate => Wire::Terminate,
        Message::Identifier(id) => Wire::Identifier(Uuid::from_u128(*id)),
        Message::Silence => Wire::Silence,
        Message::Audio(audio) => Wire::Audio(audio.as_deref()),
        Message::Error(error) => Wire::Error(error.map(|error| match error {
            ErrorType::NoError => WireError::None,
            ErrorType::Hangup => WireError::Hangup,
            ErrorType::FrameForwarding => WireError::FrameForwarding,
            ErrorType::Memory => WireError::Memory,
        })),
    })
}

/// Read the message that a type byte and a payload stand for.
pub fn decode(
    message_type: u8,
    payload: Option<&[u8]>,
) -> (result: Result<Message, MessageError>)
    ensures
        match result {
            Ok(message) => decoded(message_type, payload_view(payload)) == Ok::<
                MessageView,
                MessageError,
            >(message@),
            Err(error) => decoded(message_type, payload_view(payload)) == Err::<
                MessageView,
                MessageError,
            >(error),
        },
{
    match raw_decode(message_type, payload)? {
        Received::Terminate => Ok(Message::Terminate),
        Received::Identifier(id) => Ok(Message::Identifier(id)),
        Received::Silence => Ok(Message::Silence),
        Received::Audio(audio) => Ok(Message::Audio(audio)),
        Received::Error(Some(code)) => Ok(Message::Error(error_type(code))),
        Received::Error(None) => Ok(Message::Error(None)),
    }
}

/// Write the frame of a message.
pub fn encode(message: &Message) -> (result: Result<Vec<u8>, MessageError>)
    ensures
        match result {
            Ok(bytes) => message@.payload().len() <= MAX_PAYLOAD && bytes@ == message@.frame(),
            Err(error) => message@.payload().len() > MAX_PAYLOAD && error
                == MessageError::LengthIsTooLarge,
        },
{
    match raw_encode(message) {
        Ok(bytes) => Ok(bytes),
        Err(_) => Err(MessageError::LengthIsTooLarge),
    }
}

/// Big-endian bytes have the length that was asked for.
proof fn lemma_be_bytes_len(value: nat, len: nat)
    ensures
        be_bytes(value, len).len() == len,
    decreases len,
{
    if len > 0 {
        lemma_be_bytes_len(value / 256, (len - 1) as nat);
    }
}

/// A number is read back from as many big-endian bytes as it needs.
proof fn lemma_be_bytes_value(value: nat, len: nat)
    requires
        value < pow(256, len),
    ensures
        be_value(be_bytes(value, len)) == value,
    decreases len,
{
    reveal(pow);
    if len > 0 {
        let rest = (len - 1) as nat;
        assert(value / 256 < pow(256, rest)) by (nonlinear_arith)
            requires
                value < 256 * pow(256, rest),
        ;
        lemma_be_bytes_value(value / 256, rest);
        assert(be_bytes(value, len).drop_last() =~= be_bytes(value / 256, rest));
    }
}

/// A frame announces the length of its payload, and what is read from it is the message that was
/// written.
///
/// The one exception is a message with an audio payload of no bytes, which is read as a message
/// without audio.
pub proof fn frame_is_read_back(message: MessageView)
    requires
        message.payload().len() <= MAX_PAYLOAD,
        message != MessageView::Audio(Some(Seq::empty())),
    ensures
        message.frame().len() >= 3,
        message.frame()[0] == message.message_type(),
        be_value(message.frame().subrange(1, 3)) == message.payload().len(),
        message.frame().skip(3) == message.payload(),
        decoded(message.frame()[0], present(message.frame().skip(3))) == Ok::<
            MessageView,
            MessageError,
        >(message),
{
    let length = message.payload().len();
    lemma_be_bytes_len(length, 2);
    assert(pow(256, 2) == 65536 && pow(256, 16) == u128::MAX + 1) by {
        reveal_with_fuel(pow, 17);
    }
    lemma_be_bytes_value(length, 2);
    assert(message.frame().subrange(1, 3) =~= be_bytes(length, 2));
    assert(message.frame().skip(3) =~= message.payload());
    if let MessageView::Identifier(id) = message {
        lemma_be_bytes_len(id as nat, 16);
        lemma_be_bytes_value(id as nat, 16);
    }
    if let MessageView::Audio(Some(audio)) = message {
        if audio.len() == 0 {
            assert(audio =~= Seq::empty());
        }
    }
}

} // verus!
