//! The client's top-level errors.

use vstd::prelude::*;

verus! {

/// What went wrong in the client.
#[derive(Clone, Copy, Debug, PartialEq, Eq, Structural)]
pub enum ErrorKind {
    /// The daemon closed the connection.
    DaemonAbortedConnection,
    /// No session with the daemon could be set up.
    DaemonConnectionFailed,
    /// A command could not be sent to the daemon.
    SendCommandFailed,
    /// The daemon's response could not be received.
    ReceiveResponseFailed,
    /// The interactive mode could not start.
    ReplInitFailed,
    /// A line of input could not be split into words.
    ShlexFailed,
    /// The words of a line of input are no command.
    ClapFailed,
    /// Any other error, described by its message.
    Other,
}

/// Human-readable description of an error kind.
pub open spec fn kind_text(kind: ErrorKind) -> Seq<char> {
    match kind {
        ErrorKind::DaemonAbortedConnection => "daemon aborted connection"@,
        ErrorKind::DaemonConnectionFailed => "failed to create session with daemon"@,
        ErrorKind::SendCommandFailed => "failed to send command to daemon"@,
        ErrorKind::ReceiveResponseFailed => "failed to receive daemon response"@,
        ErrorKind::ReplInitFailed => "repl initialization failed"@,
        ErrorKind::ShlexFailed => "failed to parse input: shlex split error"@,
        ErrorKind::ClapFailed => "failed to parse input: clap parsing error"@,
        ErrorKind::Other => "error"@,
    }
}

impl ErrorKind {
    /// Human-readable description of this kind.
    pub fn text(&self) -> (s: String)
        ensures
            s@ == kind_text(*self),
    {
        match self {
            ErrorKind::DaemonAbortedConnection => String::from_str("daemon aborted connection"),
            ErrorKind::DaemonConnectionFailed => String::from_str("failed to create session with daemon"),
            ErrorKind::SendCommandFailed => String::from_str("failed to send command to daemon"),
            ErrorKind::ReceiveResponseFailed => String::from_str("failed to receive daemon response"),
            ErrorKind::ReplInitFailed => String::from_str("repl initialization failed"),
            ErrorKind::ShlexFailed => String::from_str("failed to parse input: shlex split error"),
            ErrorKind::ClapFailed => String::from_str("failed to parse input: clap parsing error"),
            ErrorKind::Other => String::from_str("error"),
        }
    }
}

/// An error's message: the cause's message if there is one, else the kind's text.
pub open spec fn error_text(e: Error) -> Seq<char> {
    match e.payload {
        Some(p) => p@,
        None => kind_text(e.kind),
    }
}

/// A client error: its kind and, for errors with a cause, the cause's message.
#[derive(Debug)]
pub struct Error {
    pub kind: ErrorKind,
    pub payload: Option<String>,
}

impl Error {
    /// An error of `kind` caused by a failure described by `payload`.
    pub fn new(kind: ErrorKind, payload: String) -> (e: Error)
        ensures
            e.kind == kind,
            e.payload == Some(payload),
    {
        Error { kind, payload: Some(payload) }
    }

    /// An error of `kind` with no further cause.
    pub fn from_kind(kind: ErrorKind) -> (e: Error)
        ensures
            e.kind == kind,
            e.payload.is_none(),
    {
        Error { kind, payload: None }
    }

    /// An error of no particular kind, described by `message`.
    pub fn other(message: String) -> (e: Error)
        ensures
            e.kind == ErrorKind::Other,
            e.payload == Some(message),
    {
        Error::new(ErrorKind::Other, message)
    }

    /// The kind of this error.
    pub fn kind(&self) -> (k: ErrorKind)
        ensures
            k == self.kind,
    {
        self.kind
    }

    /// The error's message: the cause's message if there is one, else the kind's text.
    pub fn message(&self) -> (s: String)
        ensures
            s@ == error_text(*self),
    {
        match &self.payload {
            Some(p) => p.clone(),
            None => self.kind.text(),
        }
    }

    /// This error wrapped as the cause of an error of `kind`.
    pub fn wrapped(&self, kind: ErrorKind) -> (e: Error)
        ensures
            e.kind == kind,
            e.payload matches Some(p) && p@ == error_text(*self),
    {
        Error::new(kind, self.message())
    }
}

} // verus!
