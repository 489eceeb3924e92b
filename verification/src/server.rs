use vstd::prelude::*;

use crate::message::MessageError;

verus! {

/// Kinds of I/O errors that the server tells apart.
#[derive(Debug, Clone, Copy, PartialEq, Eq, Structural)]
pub enum IoErrorKind {
    /// The other side does not read any more.
    BrokenPipe,

    /// The stream ended in the middle of a message.
    UnexpectedEof,

    /// The other side dropped the connection.
    ConnectionReset,

    /// Any other kind.
    Other,
}

/// An I/O error.
#[derive(Debug, PartialEq, Eq)]
pub struct IoError {
    /// Kind of the error.
    pub kind: IoErrorKind,

    /// What the system says about it.
    pub description: String,
}

impl IoError {
    /// Does the error mean that the client has gone away?
    pub open spec fn disconnects(self) -> bool {
        self.kind == IoErrorKind::BrokenPipe || self.kind == IoErrorKind::UnexpectedEof
            || self.kind == IoErrorKind::ConnectionReset
    }

    /// Does the error mean that the client has gone away?
    pub fn is_disconnect(&self) -> (result: bool)
        ensures
            result == self.disconnects(),
    {
        self.kind == IoErrorKind::BrokenPipe || self.kind == IoErrorKind::UnexpectedEof || self.kind
            == IoErrorKind::ConnectionReset
    }
}

/// Errors that end an AudioSocket connection.
#[derive(Debug, PartialEq, Eq)]
pub enum ServerError {
    /// Reading or writing failed.
    IoError(IoError),

    /// A message could not be read or written.
    AudioSocketError(MessageError),

    /// There was no message for too long.
    TimeoutError,

    /// The client closed the connection.
    ClientDisconnected(Option<IoError>),
}

impl MessageError {
    /// Text of the error.
    pub open spec fn text(self) -> Seq<char> {
        match self {
            MessageError::EmptyPayload =>
                "Message contains empty payload, despite having type that doesn't support it"@,
            MessageError::InvalidIdentifier => "UUID provided in payload is invalid"@,
            MessageError::IncorrectMessageType => "Payload contained invalid message type"@,
            MessageError::IncorrectErrorCode => "Payload contained invalid error code"@,
            MessageError::InvalidRawMessage =>
                "Provided slice doesn't contain correct AudioSocket message"@,
            MessageError::IncorrectLengthProvided => "AudioSocket message contains invalid length"@,
            MessageError::LengthIsTooLarge => "Unable to cast payload length to 16-bit integer"@,
        }
    }

    /// Text of the error.
    pub fn describe(&self) -> (text: String)
        ensures
            text@ == self.text(),
    {
        match self {
            MessageError::EmptyPayload =>
                "Message contains empty payload, despite having type that doesn't support it".to_owned(),
            MessageError::InvalidIdentifier => "UUID provided in payload is invalid".to_owned(),
            MessageError::IncorrectMessageType => "Payload contained invalid message type".to_owned(),
            MessageError::IncorrectErrorCode => "Payload contained invalid error code".to_owned(),
            MessageError::InvalidRawMessage =>
                "Provided slice doesn't contain correct AudioSocket message".to_owned(),
            MessageError::IncorrectLengthProvided =>
                "AudioSocket message contains invalid length".to_owned(),
            MessageError::LengthIsTooLarge =>
                "Unable to cast payload length to 16-bit integer".to_owned(),
        }
    }
}

impl ServerError {
    /// Text of the error.
    pub open spec fn text(self) -> Seq<char> {
        match self {
            ServerError::IoError(error) => "IO error: "@ + error.description@,
            ServerError::AudioSocketError(error) => "AudioSocket error: "@ + error.text(),
            ServerError::TimeoutError =>
                "Exceeded max await time for next AudioSocket message: deadline has elapsed"@,
            ServerError::ClientDisconnected(_) => "Connection was closed by client"@,
        }
    }

    /// Text of the error.
    pub fn describe(&self) -> (text: String)
        ensures
            text@ == self.text(),
    {
        match self {
            ServerError::IoError(error) => "IO error: ".to_owned().concat(
                error.description.as_str(),
            ),
            ServerError::AudioSocketError(error) => "AudioSocket error: ".to_owned().concat(
                error.describe().as_str(),
            ),
            ServerError::TimeoutError =>
                "Exceeded max await time for next AudioSocket message: deadline has elapsed".to_owned(),
            ServerError::ClientDisconnected(_) => "Connection was closed by client".to_owned(),
        }
    }
}

} // verus!
