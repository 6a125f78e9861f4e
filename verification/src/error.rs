//! The errors that end an operation or a session.
use vstd::prelude::*;

use crate::protocol::{
    ProtocolError, ProtocolErrorView, Resource, ServerMessage, ServerMessageView,
};

verus! {

/// The kinds of I/O failure that a driver tells apart.
#[derive(Debug, Clone, Copy, PartialEq, Eq, Structural)]
pub enum IoErrorKind {
    /// A signal cut the call short.
    Interrupted,
    /// The peer closed the connection.
    UnexpectedEof,
    /// An argument of the call is not acceptable.
    InvalidInput,
    /// The peer takes no more bytes.
    WriteZero,
    /// Anything else.
    Other,
}

/// An I/O failure, as plain values.
#[derive(Debug)]
pub struct IoError {
    /// What kind of failure it is.
    pub kind: IoErrorKind,
    /// The operating system's error number, where there is one.
    pub code: Option<i32>,
    /// The failure in words.
    pub message: String,
}

/// An [`IoError`] with its text as a sequence.
#[verifier::ext_equal]
pub struct IoErrorView {
    pub kind: IoErrorKind,
    pub code: Option<i32>,
    pub message: Seq<char>,
}

impl View for IoError {
    type V = IoErrorView;

    open spec fn view(&self) -> IoErrorView {
        IoErrorView { kind: self.kind, code: self.code, message: self.message@ }
    }
}

/// The failure of a read at the end of the stream.
pub open spec fn eof_error() -> IoErrorView {
    IoErrorView {
        kind: IoErrorKind::UnexpectedEof,
        code: None,
        message: "unexpected end of file"@,
    }
}

impl IoError {
    /// The failure of a read at the end of the stream.
    pub fn unexpected_eof() -> (error: IoError)
        ensures
            error@ == eof_error(),
    {
        IoError {
            kind: IoErrorKind::UnexpectedEof,
            code: None,
            message: "unexpected end of file".to_owned(),
        }
    }
}

/// What can go wrong in a session.
#[derive(Debug)]
pub enum SgcError {
    /// Nobody listens on the socket.
    ConnectFailed(IoError),
    /// The daemon refused the request.
    Denied {
        /// The daemon's reason.
        reason: String,
    },
    /// The session does not hold the resource.
    NotHeld {
        /// The resource in question.
        resource: Resource,
    },
    /// The daemon does not offer the resource.
    NotAvailable {
        /// The resource in question.
        resource: Resource,
    },
    /// The daemon queued the request: its grant will arrive as an event.
    Queued {
        /// The resource asked for.
        resource: Resource,
    },
    /// The bytes on the wire are not the protocol's.
    Protocol(ProtocolError),
    /// The daemon said something else than the session had to hear.
    UnexpectedMessage(ServerMessage),
    /// The socket failed.
    Io(IoError),
}

/// An [`SgcError`] with its parts as sequences.
#[verifier::ext_equal]
pub enum SgcErrorView {
    ConnectFailed(IoErrorView),
    Denied { reason: Seq<char> },
    NotHeld { resource: Resource },
    NotAvailable { resource: Resource },
    Queued { resource: Resource },
    Protocol(ProtocolErrorView),
    UnexpectedMessage(ServerMessageView),
    Io(IoErrorView),
}

impl View for SgcError {
    type V = SgcErrorView;

    open spec fn view(&self) -> SgcErrorView {
        match *self {
            SgcError::ConnectFailed(error) => SgcErrorView::ConnectFailed(error@),
            SgcError::Denied { reason } => SgcErrorView::Denied { reason: reason@ },
            SgcError::NotHeld { resource } => SgcErrorView::NotHeld { resource },
            SgcError::NotAvailable { resource } => SgcErrorView::NotAvailable { resource },
            SgcError::Queued { resource } => SgcErrorView::Queued { resource },
            SgcError::Protocol(error) => SgcErrorView::Protocol(error@),
            SgcError::UnexpectedMessage(message) => SgcErrorView::UnexpectedMessage(message@),
            SgcError::Io(error) => SgcErrorView::Io(error@),
        }
    }
}

} // verus!
