//! Errors reported by the client.

use crate::constants::ReturnCode;
use crate::text::{decimal, decimal_string};
use crate::types::{StatusLine, StatusLineView};
use vstd::prelude::*;
use vstd::string::*;

verus! {

/// Category of a transport or protocol failure.
#[derive(Debug, Clone, Copy, PartialEq, Eq, Hash, Structural)]
pub enum ErrorKind {
    /// Something that was looked for does not exist.
    NotFound,
    /// The peer sent a frame that breaks the protocol.
    InvalidInput,
    /// A payload could not be read as the value that was expected.
    InvalidData,
    /// A payload ended before the record was complete.
    UnexpectedEof,
    /// The operation has to wait for the transport.
    WouldBlock,
    /// Any other failure of the transport.
    Other,
}

/// A transport or protocol failure: its category and a message.
#[derive(Debug, Clone, PartialEq, Eq, Hash)]
pub struct IoError {
    kind: ErrorKind,
    message: String,
}

/// Mathematical value of an [`IoError`].
pub struct IoErrorView {
    pub kind: ErrorKind,
    pub message: Seq<char>,
}

impl View for IoError {
    type V = IoErrorView;

    closed spec fn view(&self) -> IoErrorView {
        IoErrorView { kind: self.kind, message: self.message@ }
    }
}

impl IoError {
    /// A failure of category `kind` with the message `msg`.
    pub fn new(kind: ErrorKind, msg: &str) -> (error: IoError)
        ensures
            error@ == (IoErrorView { kind, message: msg@ }),
    {
        IoError { kind, message: msg.to_string() }
    }

    /// The category of this failure.
    pub fn kind(&self) -> (kind: ErrorKind)
        ensures
            kind == self@.kind,
    {
        self.kind
    }

    /// The message of this failure.
    pub fn message(&self) -> (message: &str)
        ensures
            message@ == self@.message,
    {
        self.message.as_str()
    }
}

/// What can go wrong in an exchange with the server.
#[derive(Debug, Clone, PartialEq, Eq, Hash)]
pub enum ClientError {
    /// The transport failed, or the peer broke the protocol.
    Io(IoError),
    /// The transport is not ready: try again later.
    NotReady,
    /// The server refused the command.
    Ssip(StatusLine),
    /// The reply holds fewer lines than expected.
    TooFewLines,
    /// The reply holds more lines than expected.
    TooManyLines,
    /// The reply is a success, but not the expected one.
    UnexpectedStatus(ReturnCode),
}

/// Mathematical value of a [`ClientError`].
pub enum ClientErrorView {
    Io(IoErrorView),
    NotReady,
    Ssip(StatusLineView),
    TooFewLines,
    TooManyLines,
    UnexpectedStatus(ReturnCode),
}

impl View for ClientError {
    type V = ClientErrorView;

    open spec fn view(&self) -> ClientErrorView {
        match self {
            ClientError::Io(error) => ClientErrorView::Io(error@),
            ClientError::NotReady => ClientErrorView::NotReady,
            ClientError::Ssip(status) => ClientErrorView::Ssip(status@),
            ClientError::TooFewLines => ClientErrorView::TooFewLines,
            ClientError::TooManyLines => ClientErrorView::TooManyLines,
            ClientError::UnexpectedStatus(code) => ClientErrorView::UnexpectedStatus(*code),
        }
    }
}

/// The failure of category `kind` with the message `msg`, unless the
/// category says that the transport is merely not ready.
pub open spec fn io_failure(kind: ErrorKind, msg: Seq<char>) -> ClientErrorView {
    if kind == ErrorKind::WouldBlock {
        ClientErrorView::NotReady
    } else {
        ClientErrorView::Io(IoErrorView { kind, message: msg })
    }
}

/// The peer broke the protocol.
pub open spec fn protocol_failure(msg: Seq<char>) -> ClientErrorView {
    ClientErrorView::Io(IoErrorView { kind: ErrorKind::InvalidInput, message: msg })
}

/// A payload could not be read as the value that was expected.
pub open spec fn invalid_data_failure(msg: Seq<char>) -> ClientErrorView {
    ClientErrorView::Io(IoErrorView { kind: ErrorKind::InvalidData, message: msg })
}

/// A payload ended before the record was complete.
pub open spec fn unexpected_eof_failure(msg: Seq<char>) -> ClientErrorView {
    ClientErrorView::Io(IoErrorView { kind: ErrorKind::UnexpectedEof, message: msg })
}

impl ClientErrorView {
    /// The text that describes this error.
    pub open spec fn text(self) -> Seq<char> {
        match self {
            ClientErrorView::Io(error) => "I/O: "@ + error.message,
            ClientErrorView::NotReady => "Not ready"@,
            ClientErrorView::Ssip(status) => "SSIP: "@ + status.text(),
            ClientErrorView::TooFewLines => "Too few lines"@,
            ClientErrorView::TooManyLines => "Too many lines"@,
            ClientErrorView::UnexpectedStatus(code) => "Unexpected status: "@ + decimal(
                code as nat,
            ),
        }
    }
}

impl ClientError {
    /// The error that stands for a transport failure: a transport that
    /// would block is reported as `NotReady`, any other failure as `Io`.
    pub fn from_io(error: IoError) -> (result: ClientError)
        ensures
            result@ == io_failure(error@.kind, error@.message),
    {
        match error.kind {
            ErrorKind::WouldBlock => ClientError::NotReady,
            _ => ClientError::Io(error),
        }
    }

    /// A transport or protocol failure of category `kind`.
    pub fn io_error(kind: ErrorKind, msg: &str) -> (result: ClientError)
        ensures
            result@ == ClientErrorView::Io(IoErrorView { kind, message: msg@ }),
    {
        ClientError::Io(IoError::new(kind, msg))
    }

    /// A failure to read a payload as the value that was expected.
    pub fn invalid_data(msg: &str) -> (result: ClientError)
        ensures
            result@ == invalid_data_failure(msg@),
    {
        ClientError::io_error(ErrorKind::InvalidData, msg)
    }

    /// A payload that ended before the record was complete.
    pub fn unexpected_eof(msg: &str) -> (result: ClientError)
        ensures
            result@ == unexpected_eof_failure(msg@),
    {
        ClientError::io_error(ErrorKind::UnexpectedEof, msg)
    }

    /// A frame that breaks the protocol.
    pub fn invalid_input(msg: &str) -> (result: ClientError)
        ensures
            result@ == protocol_failure(msg@),
    {
        ClientError::io_error(ErrorKind::InvalidInput, msg)
    }

    /// The text that describes this error.
    pub fn to_string(&self) -> (text: String)
        ensures
            text@ == self@.text(),
    {
        match self {
            ClientError::Io(error) => {
                let mut text = "I/O: ".to_string();
                text.append(error.message());
                text
            },
            ClientError::NotReady => "Not ready".to_string(),
            ClientError::Ssip(status) => {
                let mut text = "SSIP: ".to_string();
                text.append(status.to_string().as_str());
                text
            },
            ClientError::TooFewLines => "Too few lines".to_string(),
            ClientError::TooManyLines => "Too many lines".to_string(),
            ClientError::UnexpectedStatus(code) => {
                let mut text = "Unexpected status: ".to_string();
                text.append(decimal_string(*code as u64).as_str());
                text
            },
        }
    }
}

/// Result of an operation of the client.
pub type ClientResult<T> = Result<T, ClientError>;

/// Result that holds the status line of a reply.
pub type ClientStatus = ClientResult<StatusLine>;

} // verus!
