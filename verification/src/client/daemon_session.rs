//! The client's session with the daemon.

use vstd::prelude::*;
use crate::client::error::{Error, ErrorKind};
use crate::socket;

verus! {

/// The client error for a failure of the socket under the session: the
/// daemon closing the connection is told apart from other failures.
pub fn from_socket_error(err: socket::Error) -> (r: Error)
    ensures
        r.kind == (if err.kind == socket::ErrorKind::ConnectionAborted {
            ErrorKind::DaemonAbortedConnection
        } else {
            ErrorKind::Other
        }),
        r.payload matches Some(p) && p@ == socket::error_text(err),
{
    if err.kind() == socket::ErrorKind::ConnectionAborted {
        Error::new(ErrorKind::DaemonAbortedConnection, err.message())
    } else {
        Error::other(err.message())
    }
}

} // verus!
