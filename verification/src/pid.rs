//! PID file management: the file's contents and the decisions taken on the
//! outcomes of the file operations.

use vstd::prelude::*;
use crate::io_kind::{IoErrorKind, IoFailure};
use crate::number::{int_error_text, int_text, parse_i32, parse_i32_chars, i32_text, lemma_i32_text_roundtrip, IntErrorKind};
use crate::text::{chars_of, decimal, is_white, trim, trim_chars, trim_start};

verus! {

/// What went wrong in PID file handling.
#[derive(Clone, Copy, Debug, PartialEq, Eq, Structural)]
pub enum ErrorKind {
    // Logical errors.
    PidFileNotFound,
    InvalidPidFileContent,
    ParentDirInvalid,
    // I/O errors.
    CreateParentDir,
    CreatePidFile,
    WriteToPidFile,
    ReadFromPidFile,
    RemovePidFile,
    RemoveParentDir,
}

/// Human-readable description of an error kind.
pub open spec fn kind_text(kind: ErrorKind) -> Seq<char> {
    match kind {
        ErrorKind::PidFileNotFound => "PID file not found"@,
        ErrorKind::InvalidPidFileContent => "invalid PID file content"@,
        ErrorKind::ParentDirInvalid => "no or invalid parent directory for PID file"@,
        ErrorKind::CreateParentDir => "failed to create parent directory for PID file"@,
        ErrorKind::CreatePidFile => "failed to create PID file"@,
        ErrorKind::WriteToPidFile => "failed to write to PID file"@,
        ErrorKind::ReadFromPidFile => "failed to read from PID file"@,
        ErrorKind::RemovePidFile => "failed to remove PID file"@,
        ErrorKind::RemoveParentDir => "failed to remove parent directory of PID file"@,
    }
}

impl ErrorKind {
    /// Human-readable description of this kind.
    pub fn text(&self) -> (s: String)
        ensures
            s@ == kind_text(*self),
    {
        match self {
            ErrorKind::PidFileNotFound => String::from_str("PID file not found"),
            ErrorKind::InvalidPidFileContent => String::from_str("invalid PID file content"),
            ErrorKind::ParentDirInvalid => String::from_str("no or invalid parent directory for PID file"),
            ErrorKind::CreateParentDir => String::from_str("failed to create parent directory for PID file"),
            ErrorKind::CreatePidFile => String::from_str("failed to create PID file"),
            ErrorKind::WriteToPidFile => String::from_str("failed to write to PID file"),
            ErrorKind::ReadFromPidFile => String::from_str("failed to read from PID file"),
            ErrorKind::RemovePidFile => String::from_str("failed to remove PID file"),
            ErrorKind::RemoveParentDir => String::from_str("failed to remove parent directory of PID file"),
        }
    }
}

/// An error's message: the cause's message if there is one, else the kind's text.
pub open spec fn error_text(e: Error) -> Seq<char> {
    match e.payload {
        Some(p) => p@,
        None => kind_text(e.kind),
    }
}

/// A PID file error: its kind and, for errors with a cause, the cause's message.
#[derive(Debug)]
pub struct Error {
    pub kind: ErrorKind,
    pub payload: Option<String>,
}

impl Error {
    /// An error of `kind` caused by a failure described by `payload`.
    pub fn new(kind: ErrorKind, payload: String) -> (e: Error)
        ensures
            e.kind == kind,
            e.payload == Some(payload),
    {
        Error { kind, payload: Some(payload) }
    }

    /// An error of `kind` with no further cause.
    pub fn from_kind(kind: ErrorKind) -> (e: Error)
        ensures
            e.kind == kind,
            e.payload.is_none(),
    {
        Error { kind, payload: None }
    }

    /// The kind of this error.
    pub fn kind(&self) -> (k: ErrorKind)
        ensures
            k == self.kind,
    {
        self.kind
    }

    /// The error's message: the cause's message if there is one, else the kind's text.
    pub fn message(&self) -> (s: String)
        ensures
            s@ == error_text(*self),
    {
        match &self.payload {
            Some(p) => p.clone(),
            None => self.kind.text(),
        }
    }
}

/// The contents written to a PID file for process `pid`.
pub fn pid_text(pid: i32) -> (s: String)
    ensures
        s@ == int_text(pid as int),
{
    i32_text(pid)
}

/// What reading a PID file with contents `content` yields: the PID that its
/// text, without surrounding white space, spells in decimal.
pub open spec fn pid_of_content(content: Seq<char>) -> Result<int, IntErrorKind> {
    parse_i32(trim(content))
}

/// Why a parse failed (`Empty` for a parse that did not fail).
pub open spec fn parse_failure(r: Result<int, IntErrorKind>) -> IntErrorKind {
    match r {
        Ok(_) => IntErrorKind::Empty,
        Err(k) => k,
    }
}

/// The PID held by a PID file whose contents are `content`.
pub fn parse_pid_content(content: &str) -> (r: Result<i32, Error>)
    ensures
        r is Ok <==> pid_of_content(content@) is Ok,
        r matches Ok(p) ==> pid_of_content(content@) == Ok::<int, IntErrorKind>(p as int),
        r matches Err(e) ==> e.kind == ErrorKind::InvalidPidFileContent && e.payload is Some
            && e.payload.unwrap()@ == int_error_text(parse_failure(pid_of_content(content@))),
{
    let cs = chars_of(content);
    let t = trim_chars(cs.as_slice());
    match parse_i32_chars(t.as_slice()) {
        Ok(p) => Ok(p),
        Err(k) => Err(Error::new(ErrorKind::InvalidPidFileContent, k.text())),
    }
}

/// The result of reading a PID file, given the outcome of reading its text.
pub fn read_outcome(read: Result<String, IoFailure>) -> (r: Result<i32, Error>)
    ensures
        match read {
            Ok(content) => (r is Ok <==> pid_of_content(content@) is Ok) && (r matches Ok(p)
                ==> pid_of_content(content@) == Ok::<int, IntErrorKind>(p as int)) && (r matches Err(e)
                ==> e.kind == ErrorKind::InvalidPidFileContent),
            Err(f) => r matches Err(e) && (if f.kind == IoErrorKind::NotFound {
                e.kind == ErrorKind::PidFileNotFound && e.payload is None
            } else {
                e.kind == ErrorKind::ReadFromPidFile && e.payload == Some(f.message)
            }),
        },
{
    match read {
        Ok(content) => parse_pid_content(content.as_str()),
        Err(f) => {
            if f.kind == IoErrorKind::NotFound {
                Err(Error::from_kind(ErrorKind::PidFileNotFound))
            } else {
                Err(Error::new(ErrorKind::ReadFromPidFile, f.message))
            }
        },
    }
}

/// Cleanup, first step: the outcome of removing the PID file. A file that is
/// already gone is no failure.
pub fn after_file_removal(outcome: Result<(), IoFailure>) -> (r: Result<(), Error>)
    ensures
        match outcome {
            Ok(()) => r is Ok,
            Err(f) => if f.kind == IoErrorKind::NotFound {
                r is Ok
            } else {
                r matches Err(e) && e.kind == ErrorKind::RemovePidFile && e.payload == Some(f.message)
            },
        },
{
    match outcome {
        Ok(()) => Ok(()),
        Err(f) => {
            if f.kind == IoErrorKind::NotFound {
                Ok(())
            } else {
                Err(Error::new(ErrorKind::RemovePidFile, f.message))
            }
        },
    }
}

/// Cleanup, second step: the outcome of removing the PID file's directory. A
/// directory that is gone or still holds other files is no failure.
pub fn after_dir_removal(outcome: Result<(), IoFailure>) -> (r: Result<(), Error>)
    ensures
        match outcome {
            Ok(()) => r is Ok,
            Err(f) => if f.kind == IoErrorKind::NotFound || f.kind == IoErrorKind::DirectoryNotEmpty {
                r is Ok
            } else {
                r matches Err(e) && e.kind == ErrorKind::RemoveParentDir && e.payload == Some(f.message)
            },
        },
{
    match outcome {
        Ok(()) => Ok(()),
        Err(f) => {
            if f.kind == IoErrorKind::NotFound || f.kind == IoErrorKind::DirectoryNotEmpty {
                Ok(())
            } else {
                Err(Error::new(ErrorKind::RemoveParentDir, f.message))
            }
        },
    }
}

/// Creation goes on after cleanup unless cleanup failed for another reason
/// than an unremovable parent directory; then that failure is the result.
pub fn create_after_cleanup(cleanup: Result<(), Error>) -> (r: Result<(), Error>)
    ensures
        match cleanup {
            Ok(()) => r is Ok,
            Err(e) => if e.kind == ErrorKind::RemoveParentDir { r is Ok } else { r == Err::<(), Error>(e) },
        },
{
    match cleanup {
        Ok(()) => Ok(()),
        Err(e) => {
            if e.kind == ErrorKind::RemoveParentDir {
                Ok(())
            } else {
                Err(e)
            }
        },
    }
}

proof fn lemma_int_text_untrimmed(n: int)
    requires
        i32::MIN <= n <= i32::MAX,
    ensures
        trim(int_text(n)) == int_text(n),
{
    let m: nat = if n < 0 { (-n) as nat } else { n as nat };
    lemma_decimal_digits(m);
    let t = int_text(n);
    assert(t.len() > 0);
    assert(!is_white(t[0]));
    assert(t.last() == decimal(m).last());
    assert(!is_white(t.last()));
    assert(trim_start(t) == t);
}

proof fn lemma_decimal_digits(n: nat)
    ensures
        decimal(n).len() > 0,
        forall|i: int| 0 <= i < decimal(n).len() ==> '0' <= #[trigger] decimal(n)[i] <= '9',
    decreases n,
{
    if n >= 10 {
        lemma_decimal_digits(n / 10);
    }
}

/// Law: what a PID file is written with reads back as the same PID.
pub proof fn lemma_pid_file_roundtrip(pid: i32)
    ensures
        pid_of_content(int_text(pid as int)) == Ok::<int, IntErrorKind>(pid as int),
{
    lemma_int_text_untrimmed(pid as int);
    lemma_i32_text_roundtrip(pid);
}

} // verus!
