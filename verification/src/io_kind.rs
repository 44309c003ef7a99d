//! The kinds of I/O failure that the library's decisions depend on.

use vstd::prelude::*;

verus! {

/// Classification of an operating-system I/O failure, as far as the
/// library's decisions need to tell failures apart.
#[derive(Clone, Copy, Debug, PartialEq, Eq, Structural)]
pub enum IoErrorKind {
    NotFound,
    DirectoryNotEmpty,
    BrokenPipe,
    ConnectionReset,
    ConnectionAborted,
    UnexpectedEof,
    PermissionDenied,
    InvalidData,
    Other,
}

/// A failed I/O operation: what kind of failure, and the system's message for it.
#[derive(Debug)]
pub struct IoFailure {
    pub kind: IoErrorKind,
    pub message: String,
}

} // verus!
