//! Socket frames of the simple socket layer: a 32-bit big-endian
//! length, then the message's UTF-8 bytes.

use vstd::prelude::*;
use vstd::utf8::*;
use crate::io_kind::{IoErrorKind, IoFailure};
use crate::socket::{be32, finish_frame, frame_of, wire_len};

verus! {

broadcast use {encode_utf8_valid_utf8, encode_utf8_decode_utf8};

/// Largest payload, in bytes, that a received frame may announce.
pub const MAX_FRAME_BYTES: usize = 65536;

/// The frame carrying `message`. Its length field holds the byte count
/// modulo 2^32, unchecked, as a 32-bit field does.
pub fn frame(message: &str) -> (r: Vec<u8>)
    ensures
        r@ == frame_of(message@),
{
    let bytes = message.as_bytes();
    let n: usize = bytes.len();
    let len: u32 = ((n as u64) % 0x1_0000_0000u64) as u32;
    let mut f: Vec<u8> = Vec::new();
    f.push((len / 0x100_0000) as u8);
    f.push(((len / 0x1_0000) % 0x100) as u8);
    f.push(((len / 0x100) % 0x100) as u8);
    f.push((len % 0x100) as u8);
    assert(f@ =~= be32(len as nat));
    let mut i: usize = 0;
    while i < bytes.len()
        invariant
            i <= bytes@.len(),
            bytes@ == encode_utf8(message@),
            f@ == be32(wire_len(bytes@.len())) + bytes@.take(i as int),
        decreases bytes@.len() - i,
    {
        f.push(bytes[i]);
        assert(bytes@.take(i as int).push(bytes@[i as int]) =~= bytes@.take(i + 1));
        i = i + 1;
    }
    assert(bytes@.take(bytes@.len() as int) =~= bytes@);
    f
}

/// The failure reported when the client went away mid-frame.
pub open spec fn is_abort_report(f: IoFailure) -> bool {
    f.kind == IoErrorKind::ConnectionAborted && f.message@ == "connection aborted by CLI client"@
}

/// Failures of writing that mean the client went away.
pub open spec fn write_abort(kind: IoErrorKind) -> bool {
    kind == IoErrorKind::BrokenPipe || kind == IoErrorKind::ConnectionReset
        || kind == IoErrorKind::ConnectionAborted
}

/// Failures of reading that mean the client went away.
pub open spec fn read_abort(kind: IoErrorKind) -> bool {
    write_abort(kind) || kind == IoErrorKind::UnexpectedEof
}

fn aborted() -> (r: IoFailure)
    ensures
        is_abort_report(r),
{
    IoFailure { kind: IoErrorKind::ConnectionAborted, message: String::from_str("connection aborted by CLI client") }
}

/// The failure a write reports when the client went away; other write
/// failures are not handled.
pub fn on_write_failure(kind: IoErrorKind) -> (r: IoFailure)
    requires
        write_abort(kind),
    ensures
        is_abort_report(r),
{
    aborted()
}

/// The failure a read reports when the client went away; other read
/// failures are not handled.
pub fn on_read_failure(kind: IoErrorKind) -> (r: IoFailure)
    requires
        read_abort(kind),
    ensures
        is_abort_report(r),
{
    aborted()
}

/// The payload length a received header announces, unless it is over the
/// limit.
pub fn check_frame_len(len: u32) -> (r: Result<usize, IoFailure>)
    ensures
        r is Ok <==> len <= MAX_FRAME_BYTES,
        r matches Ok(n) ==> n == len,
        r matches Err(f) ==> f.kind == IoErrorKind::InvalidData
            && f.message@ == "socket frame exceeds maximum allowed size"@,
{
    if len as usize > MAX_FRAME_BYTES {
        Err(IoFailure {
            kind: IoErrorKind::InvalidData,
            message: String::from_str("socket frame exceeds maximum allowed size"),
        })
    } else {
        Ok(len as usize)
    }
}

/// The message a received payload carries; a payload that is not UTF-8 is
/// not handled.
pub fn message_of(payload: Vec<u8>) -> (r: String)
    requires
        valid_utf8(payload@),
    ensures
        r@ == decode_utf8(payload@),
{
    match finish_frame(payload) {
        Ok(s) => s,
        Err(_) => String::new(),
    }
}

} // verus!
