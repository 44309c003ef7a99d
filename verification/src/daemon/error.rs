//! The daemon's top-level errors.

use vstd::prelude::*;

verus! {

/// What went wrong in the daemon.
#[derive(Clone, Copy, Debug, PartialEq, Eq, Structural)]
pub enum ErrorKind {
    /// Initialization of the daemon's components failed.
    DaemonInitFailed,
    /// The client closed the connection.
    ClientAbortedConnection,
    /// A client connection could not be accepted.
    ClientAcceptFailed,
    /// Any other error, described by its message.
    Other,
}

/// Human-readable description of an error kind.
pub open spec fn kind_text(kind: ErrorKind) -> Seq<char> {
    match kind {
        ErrorKind::DaemonInitFailed => "failed to initialize daemon components"@,
        ErrorKind::ClientAbortedConnection => "client aborted connection"@,
        ErrorKind::ClientAcceptFailed => "failed to accept client connection"@,
        ErrorKind::Other => "error"@,
    }
}

impl ErrorKind {
    /// Human-readable description of this kind.
    pub fn text(&self) -> (s: String)
        ensures
            s@ == kind_text(*self),
    {
        match self {
            ErrorKind::DaemonInitFailed => String::from_str("failed to initialize daemon components"),
            ErrorKind::ClientAbortedConnection => String::from_str("client aborted connection"),
            ErrorKind::ClientAcceptFailed => String::from_str("failed to accept client connection"),
            ErrorKind::Other => String::from_str("error"),
        }
    }
}

/// An error's message: the cause's message if there is one, else the kind's text.
pub open spec fn error_text(e: Error) -> Seq<char> {
    match e.payload {
        Some(p) => p@,
        None => kind_text(e.kind),
    }
}

/// A daemon error: its kind and, for errors with a cause, the cause's message.
#[derive(Debug)]
pub struct Error {
    pub kind: ErrorKind,
    pub payload: Option<String>,
}

impl Error {
    /// An error of `kind` caused by a failure described by `payload`.
    pub fn new(kind: ErrorKind, payload: String) -> (e: Error)
        ensures
            e.kind == kind,
            e.payload == Some(payload),
    {
        Error { kind, payload: Some(payload) }
    }

    /// An error of `kind` with no further cause.
    pub fn from_kind(kind: ErrorKind) -> (e: Error)
        ensures
            e.kind == kind,
            e.payload.is_none(),
    {
        Error { kind, payload: None }
    }

    /// An error of no particular kind, described by `message`.
    pub fn other(message: String) -> (e: Error)
        ensures
            e.kind == ErrorKind::Other,
            e.payload == Some(message),
    {
        Error::new(ErrorKind::Other, message)
    }

    /// The kind of this error.
    pub fn kind(&self) -> (k: ErrorKind)
        ensures
            k == self.kind,
    {
        self.kind
    }

    /// The error's message: the cause's message if there is one, else the kind's text.
    pub fn message(&self) -> (s: String)
        ensures
            s@ == error_text(*self),
    {
        match &self.payload {
            Some(p) => p.clone(),
            None => self.kind.text(),
        }
    }
}

} // verus!
