//! Socket file management and the length-prefixed wire framing used between
//! the client and the daemon.
//!
//! A frame is the payload's byte length as a 4-byte big-endian unsigned
//! integer, followed by the payload: the UTF-8 bytes of one message.

use vstd::prelude::*;
use vstd::utf8::*;
use crate::io_kind::{IoErrorKind, IoFailure};
use crate::text::{decimal, u64_text};

verus! {

broadcast use {encode_utf8_valid_utf8, encode_utf8_decode_utf8};

/// Largest payload, in bytes, that a frame may carry.
pub const MAX_FRAME_BYTES: u32 = 65536;

/// What went wrong in socket handling.
#[derive(Clone, Copy, Debug, PartialEq, Eq, Structural)]
pub enum ErrorKind {
    // Logical errors.
    ParentDirInvalid,
    ConnectionAborted,
    FrameTooLarge,
    InvalidUtf8,
    // I/O errors.
    CreateParentDir,
    BindListener,
    RemoveSocketFile,
    RemoveParentDir,
    ReadFromSocket,
    WriteToSocket,
}

/// Human-readable description of an error kind.
pub open spec fn kind_text(kind: ErrorKind) -> Seq<char> {
    match kind {
        ErrorKind::ParentDirInvalid => "no or invalid parent directory for socket file"@,
        ErrorKind::ConnectionAborted => "socket connection aborted by counterparty"@,
        ErrorKind::FrameTooLarge => "socket frame too large"@,
        ErrorKind::InvalidUtf8 => "socket payload was not valid UTF-8"@,
        ErrorKind::CreateParentDir => "failed to create parent directory for socket file"@,
        ErrorKind::BindListener => "failed to bind socket listener"@,
        ErrorKind::RemoveSocketFile => "failed to remove existing socket file"@,
        ErrorKind::RemoveParentDir => "failed to remove parent directory of socket file"@,
        ErrorKind::ReadFromSocket => "failed to read from socket"@,
        ErrorKind::WriteToSocket => "failed to write to socket"@,
    }
}

impl ErrorKind {
    /// Human-readable description of this kind.
    pub fn text(&self) -> (s: String)
        ensures
            s@ == kind_text(*self),
    {
        match self {
            ErrorKind::ParentDirInvalid => String::from_str("no or invalid parent directory for socket file"),
            ErrorKind::ConnectionAborted => String::from_str("socket connection aborted by counterparty"),
            ErrorKind::FrameTooLarge => String::from_str("socket frame too large"),
            ErrorKind::InvalidUtf8 => String::from_str("socket payload was not valid UTF-8"),
            ErrorKind::CreateParentDir => String::from_str("failed to create parent directory for socket file"),
            ErrorKind::BindListener => String::from_str("failed to bind socket listener"),
            ErrorKind::RemoveSocketFile => String::from_str("failed to remove existing socket file"),
            ErrorKind::RemoveParentDir => String::from_str("failed to remove parent directory of socket file"),
            ErrorKind::ReadFromSocket => String::from_str("failed to read from socket"),
            ErrorKind::WriteToSocket => String::from_str("failed to write to socket"),
        }
    }
}

/// An error's message: the cause's message if there is one, else the kind's text.
pub open spec fn error_text(e: Error) -> Seq<char> {
    match e.payload {
        Some(p) => p@,
        None => kind_text(e.kind),
    }
}

/// A socket error: its kind and, for errors with a cause, the cause's message.
#[derive(Debug)]
pub struct Error {
    pub kind: ErrorKind,
    pub payload: Option<String>,
}

impl Error {
    /// An error of `kind` caused by a failure described by `payload`.
    pub fn new(kind: ErrorKind, payload: String) -> (e: Error)
        ensures
            e.kind == kind,
            e.payload == Some(payload),
    {
        Error { kind, payload: Some(payload) }
    }

    /// An error of `kind` with no further cause.
    pub fn from_kind(kind: ErrorKind) -> (e: Error)
        ensures
            e.kind == kind,
            e.payload.is_none(),
    {
        Error { kind, payload: None }
    }

    /// The kind of this error.
    pub fn kind(&self) -> (k: ErrorKind)
        ensures
            k == self.kind,
    {
        self.kind
    }

    /// The error's message: the cause's message if there is one, else the kind's text.
    pub fn message(&self) -> (s: String)
        ensures
            s@ == error_text(*self),
    {
        match &self.payload {
            Some(p) => p.clone(),
            None => self.kind.text(),
        }
    }
}

/// Message of a frame-too-large error.
pub open spec fn too_large_text(given: nat, max: nat) -> Seq<char> {
    "this frame is "@ + decimal(given) + " bytes but the maximum is "@ + decimal(max) + " bytes"@
}

/// The length written into a frame header for a payload of `n` bytes: the
/// byte count taken modulo 2^32, as a 32-bit field holds it.
pub open spec fn wire_len(n: nat) -> nat {
    n % 0x1_0000_0000
}

/// Big-endian bytes of a 32-bit value.
pub open spec fn be32(v: nat) -> Seq<u8> {
    seq![
        (v / 0x100_0000) as u8,
        ((v / 0x1_0000) % 0x100) as u8,
        ((v / 0x100) % 0x100) as u8,
        (v % 0x100) as u8,
    ]
}

/// The 32-bit value whose big-endian bytes are the 4 bytes of `h`.
pub open spec fn be32_value(h: Seq<u8>) -> nat {
    (h[0] as nat) * 0x100_0000 + (h[1] as nat) * 0x1_0000 + (h[2] as nat) * 0x100 + (h[3] as nat)
}

/// The whole frame carrying the characters `m`.
pub open spec fn frame_of(m: Seq<char>) -> Seq<u8> {
    be32(wire_len(encode_utf8(m).len())) + encode_utf8(m)
}

/// The frame header for `message`, or the error that refuses to send it.
pub fn frame_header(message: &str) -> (r: Result<Vec<u8>, Error>)
    ensures
        r is Ok <==> wire_len(encode_utf8(message@).len()) <= MAX_FRAME_BYTES,
        r matches Ok(h) ==> h@ == be32(wire_len(encode_utf8(message@).len())),
        r matches Err(e) ==> e.kind == ErrorKind::FrameTooLarge && e.payload is Some
            && e.payload.unwrap()@ == too_large_text(wire_len(encode_utf8(message@).len()), MAX_FRAME_BYTES as nat),
{
    let bytes = message.as_bytes();
    let n: usize = bytes.len();
    let len: u32 = ((n as u64) % 0x1_0000_0000u64) as u32;
    if len > MAX_FRAME_BYTES {
        let mut text = String::from_str("this frame is ");
        let given = u64_text(len as u64);
        text.append(given.as_str());
        text.append(" bytes but the maximum is ");
        let max = u64_text(MAX_FRAME_BYTES as u64);
        text.append(max.as_str());
        text.append(" bytes");
        return Err(Error::new(ErrorKind::FrameTooLarge, text));
    }
    let mut h: Vec<u8> = Vec::new();
    h.push((len / 0x100_0000) as u8);
    h.push(((len / 0x1_0000) % 0x100) as u8);
    h.push(((len / 0x100) % 0x100) as u8);
    h.push((len % 0x100) as u8);
    assert(h@ =~= be32(len as nat));
    Ok(h)
}

/// The complete frame for `message`: its header followed by its UTF-8 bytes.
pub fn encode_frame(message: &str) -> (r: Result<Vec<u8>, Error>)
    ensures
        r is Ok <==> wire_len(encode_utf8(message@).len()) <= MAX_FRAME_BYTES,
        r matches Ok(f) ==> f@ == frame_of(message@),
        r matches Err(e) ==> e.kind == ErrorKind::FrameTooLarge && e.payload is Some
            && e.payload.unwrap()@ == too_large_text(wire_len(encode_utf8(message@).len()), MAX_FRAME_BYTES as nat),
{
    let mut frame = frame_header(message)?;
    let bytes = message.as_bytes();
    let mut i: usize = 0;
    while i < bytes.len()
        invariant
            i <= bytes@.len(),
            bytes@ == encode_utf8(message@),
            frame@ == be32(wire_len(bytes@.len())) + bytes@.take(i as int),
        decreases bytes@.len() - i,
    {
        frame.push(bytes[i]);
        assert(bytes@.take(i as int).push(bytes@[i as int]) =~= bytes@.take(i + 1));
        i = i + 1;
    }
    assert(bytes@.take(bytes@.len() as int) =~= bytes@);
    Ok(frame)
}

/// Reads a frame header (4 bytes) and checks the announced payload length.
pub fn parse_frame_header(header: &[u8]) -> (r: Result<u32, Error>)
    requires
        header@.len() == 4,
    ensures
        r is Ok <==> be32_value(header@) <= MAX_FRAME_BYTES,
        r matches Ok(n) ==> n == be32_value(header@),
        r matches Err(e) ==> e.kind == ErrorKind::FrameTooLarge && e.payload is Some
            && e.payload.unwrap()@ == too_large_text(be32_value(header@), MAX_FRAME_BYTES as nat),
{
    let n: u32 = (header[0] as u32) * 0x100_0000 + (header[1] as u32) * 0x1_0000
        + (header[2] as u32) * 0x100 + (header[3] as u32);
    if n > MAX_FRAME_BYTES {
        let mut text = String::from_str("this frame is ");
        let given = u64_text(n as u64);
        text.append(given.as_str());
        text.append(" bytes but the maximum is ");
        let max = u64_text(MAX_FRAME_BYTES as u64);
        text.append(max.as_str());
        text.append(" bytes");
        return Err(Error::new(ErrorKind::FrameTooLarge, text));
    }
    Ok(n)
}

/// `String::from_utf8`: the text encoded by `bytes`, when they are valid UTF-8.
#[verifier::external_body]
pub(crate) fn string_from_utf8(bytes: Vec<u8>) -> (r: Option<String>)
    ensures
        r is Some <==> valid_utf8(bytes@),
        r matches Some(s) ==> s@ == decode_utf8(bytes@),
{
    String::from_utf8(bytes).ok()
}

/// Turns a received payload into the message text it carries.
pub fn finish_frame(payload: Vec<u8>) -> (r: Result<String, Error>)
    ensures
        r is Ok <==> valid_utf8(payload@),
        r matches Ok(s) ==> s@ == decode_utf8(payload@),
        r matches Err(e) ==> e.kind == ErrorKind::InvalidUtf8 && e.payload is None,
{
    match string_from_utf8(payload) {
        Some(s) => Ok(s),
        None => Err(Error::from_kind(ErrorKind::InvalidUtf8)),
    }
}

/// Cleanup, first step: the outcome of removing the socket file. A file that is
/// already gone is no failure.
pub fn after_file_removal(outcome: Result<(), IoFailure>) -> (r: Result<(), Error>)
    ensures
        match outcome {
            Ok(()) => r is Ok,
            Err(f) => if f.kind == IoErrorKind::NotFound {
                r is Ok
            } else {
                r matches Err(e) && e.kind == ErrorKind::RemoveSocketFile && e.payload == Some(f.message)
            },
        },
{
    match outcome {
        Ok(()) => Ok(()),
        Err(f) => {
            if f.kind == IoErrorKind::NotFound {
                Ok(())
            } else {
                Err(Error::new(ErrorKind::RemoveSocketFile, f.message))
            }
        },
    }
}

/// Cleanup, second step: the outcome of removing the socket file's directory. A
/// directory that is gone or still holds other files is no failure.
pub fn after_dir_removal(outcome: Result<(), IoFailure>) -> (r: Result<(), Error>)
    ensures
        match outcome {
            Ok(()) => r is Ok,
            Err(f) => if f.kind == IoErrorKind::NotFound || f.kind == IoErrorKind::DirectoryNotEmpty {
                r is Ok
            } else {
                r matches Err(e) && e.kind == ErrorKind::RemoveParentDir && e.payload == Some(f.message)
            },
        },
{
    match outcome {
        Ok(()) => Ok(()),
        Err(f) => {
            if f.kind == IoErrorKind::NotFound || f.kind == IoErrorKind::DirectoryNotEmpty {
                Ok(())
            } else {
                Err(Error::new(ErrorKind::RemoveParentDir, f.message))
            }
        },
    }
}

/// Creation goes on after cleanup unless cleanup failed for another reason
/// than an unremovable parent directory; then that failure is the result.
pub fn create_after_cleanup(cleanup: Result<(), Error>) -> (r: Result<(), Error>)
    ensures
        match cleanup {
            Ok(()) => r is Ok,
            Err(e) => if e.kind == ErrorKind::RemoveParentDir { r is Ok } else { r == Err::<(), Error>(e) },
        },
{
    match cleanup {
        Ok(()) => Ok(()),
        Err(e) => {
            if e.kind == ErrorKind::RemoveParentDir {
                Ok(())
            } else {
                Err(e)
            }
        },
    }
}

/// The failures that mean that the other end closed the connection.
pub open spec fn is_abort_kind(kind: IoErrorKind) -> bool {
    kind == IoErrorKind::BrokenPipe || kind == IoErrorKind::ConnectionReset
        || kind == IoErrorKind::ConnectionAborted || kind == IoErrorKind::UnexpectedEof
}

/// Whether an I/O failure means that the other end closed the connection.
pub fn is_connection_abort_like(kind: IoErrorKind) -> (r: bool)
    ensures
        r == is_abort_kind(kind),
{
    match kind {
        IoErrorKind::BrokenPipe | IoErrorKind::ConnectionReset | IoErrorKind::ConnectionAborted
        | IoErrorKind::UnexpectedEof => true,
        _ => false,
    }
}

/// The socket error for a failed read: the other end going away is told
/// apart from other failures, which keep the system's message.
pub fn read_failure(f: IoFailure) -> (r: Error)
    ensures
        is_abort_kind(f.kind) ==> r.kind == ErrorKind::ConnectionAborted && r.payload is None,
        !is_abort_kind(f.kind) ==> r.kind == ErrorKind::ReadFromSocket && r.payload == Some(f.message),
{
    if is_connection_abort_like(f.kind) {
        Error::from_kind(ErrorKind::ConnectionAborted)
    } else {
        Error::new(ErrorKind::ReadFromSocket, f.message)
    }
}

/// The socket error for a failed write: the other end going away is told
/// apart from other failures, which keep the system's message.
pub fn write_failure(f: IoFailure) -> (r: Error)
    ensures
        is_abort_kind(f.kind) ==> r.kind == ErrorKind::ConnectionAborted && r.payload is None,
        !is_abort_kind(f.kind) ==> r.kind == ErrorKind::WriteToSocket && r.payload == Some(f.message),
{
    if is_connection_abort_like(f.kind) {
        Error::from_kind(ErrorKind::ConnectionAborted)
    } else {
        Error::new(ErrorKind::WriteToSocket, f.message)
    }
}

/// Law: a frame carries exactly its message. Every message whose UTF-8 form
/// fits in a frame comes back unchanged: the header announces the payload's
/// length, which passes the size check, and the payload decodes to the message.
pub proof fn lemma_frame_roundtrip(m: Seq<char>)
    requires
        encode_utf8(m).len() <= MAX_FRAME_BYTES,
    ensures
        ({
            let f = frame_of(m);
            let n = be32_value(f.take(4));
            &&& n == encode_utf8(m).len()
            &&& n <= MAX_FRAME_BYTES
            &&& f.len() == 4 + n
            &&& valid_utf8(f.skip(4))
            &&& decode_utf8(f.skip(4)) == m
        }),
{
    let b = encode_utf8(m);
    let f = frame_of(m);
    assert(wire_len(b.len()) == b.len());
    assert(f.take(4) =~= be32(b.len()));
    assert(f.skip(4) =~= b);
}

} // verus!
