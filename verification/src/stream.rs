use vstd::prelude::*;

use crate::message::{
    be_value, decode, decoded, frame_is_read_back, present, Message, MessageView, MAX_PAYLOAD,
};
use crate::server::{IoError, ServerError};

verus! {

/// What became of the last read from the underlying stream.
pub enum ReadEvent {
    /// No byte came within the max await time.
    Elapsed,

    /// Reading failed.
    Failed(IoError),

    /// The type byte of a message.
    MessageType(u8),

    /// The big-endian length field of a message.
    Length(u16),

    /// All bytes of the payload that came before the stream ended.
    Payload(Vec<u8>),
}

/// What to do next to receive a message.
pub enum ReadStep {
    /// Read the type byte. Only this read is bounded by the max await time.
    ReadType,

    /// Read the length field.
    ReadLength,

    /// Read the payload, up to that many bytes.
    ReadPayload(u16),

    /// The message is complete, or cannot be had.
    Done(Result<Message, ServerError>),
}

/// How much of the current message has been read.
#[derive(Debug, Clone, Copy, PartialEq, Eq, Structural)]
pub enum ReadState {
    /// Nothing.
    Idle,

    /// The type byte.
    Typed(u8),

    /// The type byte and the length field.
    Sized(u8, u16),
}

/// Produces AudioSocket messages from what is read of a byte stream.
pub struct MessageStream {
    state: ReadState,
}

impl View for MessageStream {
    type V = ReadState;

    closed spec fn view(&self) -> ReadState {
        self.state
    }
}

/// The result of receiving a message is the message that its bytes stand for.
pub open spec fn is_reception(
    result: Result<Message, ServerError>,
    message_type: u8,
    payload: Seq<u8>,
) -> bool {
    match decoded(message_type, present(payload)) {
        Ok(message) => result matches Ok(received) && received@ == message,
        Err(error) => result == Err::<Message, ServerError>(ServerError::AudioSocketError(error)),
    }
}

impl ReadState {
    /// The read that this state calls for.
    pub open spec fn step(self) -> ReadStep {
        match self {
            ReadState::Idle => ReadStep::ReadType,
            ReadState::Typed(_) => ReadStep::ReadLength,
            ReadState::Sized(_, length) => ReadStep::ReadPayload(length),
        }
    }
}

/// What a stream does with what was read: the state it goes over to, and what has to be done next.
pub open spec fn receives(
    before: ReadState,
    event: ReadEvent,
    after: ReadState,
    step: ReadStep,
) -> bool {
    match (before, event) {
        (_, ReadEvent::Failed(error)) => {
            &&& after == ReadState::Idle
            &&& step == ReadStep::Done(Err(ServerError::IoError(error)))
        },
        (ReadState::Idle, ReadEvent::Elapsed) => {
            &&& after == ReadState::Idle
            &&& step == ReadStep::Done(Err(ServerError::TimeoutError))
        },
        (ReadState::Idle, ReadEvent::MessageType(message_type)) => {
            &&& after == ReadState::Typed(message_type)
            &&& step == ReadStep::ReadLength
        },
        (ReadState::Typed(message_type), ReadEvent::Length(length)) => {
            &&& after == ReadState::Sized(message_type, length)
            &&& step == ReadStep::ReadPayload(length)
        },
        (ReadState::Sized(message_type, _), ReadEvent::Payload(payload)) => {
            &&& after == ReadState::Idle
            &&& step matches ReadStep::Done(result)
            &&& is_reception(result, message_type, payload@)
        },
        _ => after == before && step == before.step(),
    }
}

impl MessageStream {
    /// Create new [`MessageStream`], that has read nothing.
    pub fn new() -> (stream: Self)
        ensures
            stream@ == ReadState::Idle,
    {
        MessageStream { state: ReadState::Idle }
    }

    /// The read that has to be done next.
    pub fn step(&self) -> (step: ReadStep)
        ensures
            step == self@.step(),
    {
        match self.state {
            ReadState::Idle => ReadStep::ReadType,
            ReadState::Typed(_) => ReadStep::ReadLength,
            ReadState::Sized(_, length) => ReadStep::ReadPayload(length),
        }
    }

    /// Take in what was read.
    ///
    /// A message is made of all that was read, even if the payload is shorter than announced. After
    /// a message or an error the stream is ready for the next message. What was not asked for is
    /// ignored: the same read is called for again.
    pub fn recv(&mut self, event: ReadEvent) -> (step: ReadStep)
        ensures
            receives(old(self)@, event, final(self)@, step),
    {
        match (self.state, event) {
            (_, ReadEvent::Failed(error)) => {
                self.state = ReadState::Idle;
                ReadStep::Done(Err(ServerError::IoError(error)))
            },
            (ReadState::Idle, ReadEvent::Elapsed) => {
                ReadStep::Done(Err(ServerError::TimeoutError))
            },
            (ReadState::Idle, ReadEvent::MessageType(message_type)) => {
                self.state = ReadState::Typed(message_type);
                ReadStep::ReadLength
            },
            (ReadState::Typed(message_type), ReadEvent::Length(length)) => {
                self.state = ReadState::Sized(message_type, length);
                ReadStep::ReadPayload(length)
            },
            (ReadState::Sized(message_type, _), ReadEvent::Payload(payload)) => {
                self.state = ReadState::Idle;
                let result = if payload.len() == 0 {
                    decode(message_type, None)
                } else {
                    decode(message_type, Some(payload.as_slice()))
                };
                match result {
                    Ok(message) => ReadStep::Done(Ok(message)),
                    Err(error) => ReadStep::Done(Err(ServerError::AudioSocketError(error))),
                }
            },
            _ => self.step(),
        }
    }
}

/// Whoever sends the frame of a message gets this message received: a stream that reads the type
/// byte, the length field and the payload of the frame ends with the message, and is ready for the
/// next one.
///
/// The one exception is a message with an audio payload of no bytes, which is received as a message
/// without audio.
pub proof fn frame_is_received(
    message: MessageView,
    length: u16,
    payload: Vec<u8>,
    typed: ReadState,
    sized: ReadState,
    end: ReadState,
    steps: (ReadStep, ReadStep, ReadStep),
)
    requires
        message.payload().len() <= MAX_PAYLOAD,
        message != MessageView::Audio(Some(Seq::empty())),
        length == be_value(message.frame().subrange(1, 3)),
        payload@ == message.frame().skip(3),
        receives(ReadState::Idle, ReadEvent::MessageType(message.frame()[0]), typed, steps.0),
        receives(typed, ReadEvent::Length(length), sized, steps.1),
        receives(sized, ReadEvent::Payload(payload), end, steps.2),
    ensures
        steps.0 == ReadStep::ReadLength,
        steps.1 == ReadStep::ReadPayload(length),
        length == payload@.len(),
        steps.2 matches ReadStep::Done(Ok(received)) && received@ == message,
        end == ReadState::Idle,
{
    frame_is_read_back(message);
}

/// Whatever was read, a stream that is done with a message is ready for the next one.
pub proof fn done_is_ready(before: ReadState, event: ReadEvent, after: ReadState, step: ReadStep)
    requires
        receives(before, event, after, step),
    ensures
        step is Done ==> after == ReadState::Idle,
        step !is Done ==> step == after.step(),
{
}

} // verus!
