//! The PID file kept as `p2pchat/p2pchat.pid`: where it lies, and what its
//! contents say.

use vstd::prelude::*;
use crate::io_kind::{IoErrorKind, IoFailure};
use crate::number::{parse_u32, parse_u32_chars};
use crate::paths::{join, join_path};
use crate::text::{chars_of, trim, trim_chars};

verus! {

/// The PID file's path: under the runtime directory when one is set, else
/// under the home directory.
pub fn pid_file_path(runtime_dir: &Option<String>, home: &Option<String>) -> (r: String)
    requires
        runtime_dir is Some || home is Some,
    ensures
        r@ == match runtime_dir {
            Some(d) => join(d@, "p2pchat/p2pchat.pid"@),
            None => join(home.unwrap()@, ".local/share/p2pchat/p2pchat.pid"@),
        },
{
    match runtime_dir {
        Some(d) => join_path(d.as_str(), "p2pchat/p2pchat.pid"),
        None => match home {
            Some(h) => join_path(h.as_str(), ".local/share/p2pchat/p2pchat.pid"),
            None => String::new(),
        },
    }
}

/// Whether a read of the PID file ends in a PID or in its absence, rather
/// than in a failure: the file is missing, or it holds an unsigned decimal.
pub open spec fn readable(read: Result<String, IoFailure>) -> bool {
    match read {
        Ok(c) => parse_u32(trim(c@)) is Ok,
        Err(f) => f.kind == IoErrorKind::NotFound,
    }
}

/// The PID the file holds, from the outcome of reading it: `None` when it
/// does not exist. A file that cannot be read or holds no PID is not handled.
pub fn pid_from_read(read: Result<String, IoFailure>) -> (r: Option<u32>)
    requires
        readable(read),
    ensures
        match read {
            Ok(c) => r is Some && parse_u32(trim(c@)) == Ok::<int, crate::number::IntErrorKind>(r.unwrap() as int),
            Err(_) => r is None,
        },
{
    match read {
        Ok(c) => {
            let cs = chars_of(c.as_str());
            let t = trim_chars(cs.as_slice());
            match parse_u32_chars(t.as_slice()) {
                Ok(p) => Some(p),
                Err(_) => None,
            }
        },
        Err(_) => None,
    }
}

} // verus!
