//! PID files of the simple PID layer: what reading one yields and
//! which failures of cleaning one up are tolerated.

use vstd::prelude::*;
use crate::io_kind::{IoErrorKind, IoFailure};
use crate::number::{parse_i32, parse_i32_chars, IntErrorKind};
use crate::text::{chars_of, trim, trim_chars};

verus! {

/// Whether a read of the PID file ends in a PID or in its absence, rather
/// than in a failure: the file is missing, or it holds a signed decimal.
pub open spec fn readable(read: Result<String, IoFailure>) -> bool {
    match read {
        Ok(c) => parse_i32(trim(c@)) is Ok,
        Err(f) => f.kind == IoErrorKind::NotFound,
    }
}

/// The PID the file holds, from the outcome of reading it: `None` when it
/// does not exist. A file that cannot be read or holds no PID is not handled.
pub fn pid_from_read(read: Result<String, IoFailure>) -> (r: Option<i32>)
    requires
        readable(read),
    ensures
        match read {
            Ok(c) => r is Some && parse_i32(trim(c@)) == Ok::<int, IntErrorKind>(r.unwrap() as int),
            Err(_) => r is None,
        },
{
    match read {
        Ok(c) => {
            let cs = chars_of(c.as_str());
            let t = trim_chars(cs.as_slice());
            match parse_i32_chars(t.as_slice()) {
                Ok(p) => Some(p),
                Err(_) => None,
            }
        },
        Err(_) => None,
    }
}

/// Whether a failure to remove a file's parent directory is no failure at
/// all: the directory is gone already, or other files still live in it.
pub fn tolerated_dir_removal(kind: IoErrorKind) -> (r: bool)
    ensures
        r == (kind == IoErrorKind::NotFound || kind == IoErrorKind::DirectoryNotEmpty),
{
    match kind {
        IoErrorKind::NotFound | IoErrorKind::DirectoryNotEmpty => true,
        _ => false,
    }
}

} // verus!
