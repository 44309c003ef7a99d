//! Logging of the client and the daemon: how log files rotate, and the
//! error of setting logging up.

use vstd::prelude::*;

verus! {

/// A log file is rotated once it is an hour old or this many bytes large.
pub const ROTATE_SIZE_BYTES: u64 = 5000000;

/// How many rotated log files are kept.
pub const KEEP_LOG_FILES: usize = 9;

/// Log specification of the client and the daemon that log at one fixed level.
pub const BASE_LOG_SPEC: &'static str = "info";

/// What went wrong in setting up logging.
#[derive(Clone, Copy, Debug, PartialEq, Eq, Structural)]
pub enum ErrorKind {
    /// The logger could not be set up.
    LoggerInitFailed,
}

/// Human-readable description of an error kind.
pub open spec fn kind_text(kind: ErrorKind) -> Seq<char> {
    match kind {
        ErrorKind::LoggerInitFailed => "failed to initialize logger"@,
    }
}

impl ErrorKind {
    /// Human-readable description of this kind.
    pub fn text(&self) -> (s: String)
        ensures
            s@ == kind_text(*self),
    {
        match self {
            ErrorKind::LoggerInitFailed => String::from_str("failed to initialize logger"),
        }
    }
}

/// An error's message: the cause's message if there is one, else the kind's text.
pub open spec fn error_text(e: Error) -> Seq<char> {
    match e.payload {
        Some(p) => p@,
        None => kind_text(e.kind),
    }
}

/// A logging error: its kind and, for errors with a cause, the cause's message.
#[derive(Debug)]
pub struct Error {
    pub kind: ErrorKind,
    pub payload: Option<String>,
}

impl Error {
    /// An error of `kind` caused by a failure described by `payload`.
    pub fn new(kind: ErrorKind, payload: String) -> (e: Error)
        ensures
            e.kind == kind,
            e.payload == Some(payload),
    {
        Error { kind, payload: Some(payload) }
    }

    /// The kind of this error.
    pub fn kind(&self) -> (k: ErrorKind)
        ensures
            k == self.kind,
    {
        self.kind
    }

    /// The error's message: the cause's message if there is one, else the kind's text.
    pub fn message(&self) -> (s: String)
        ensures
            s@ == error_text(*self),
    {
        match &self.payload {
            Some(p) => p.clone(),
            None => self.kind.text(),
        }
    }
}

} // verus!
