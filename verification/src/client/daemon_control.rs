//! Control of the daemon process from the client: what a status check
//! concludes from the PID file, the process and the socket file, and what
//! starting and stopping the daemon decide on the way.

use vstd::prelude::*;
use crate::cli_interface::INTERNAL_DAEMON_INIT_FLAG;
use crate::client::error::{Error, ErrorKind};
use crate::pid;

verus! {

/// Name of the environment variable that hands the daemon its log level.
pub const DAEMON_LOG_LEVEL_VAR: &'static str = "P2PCHAT_DAEMON_LOG_LEVEL";

/// What the client knows of the daemon.
#[derive(Debug)]
pub enum State {
    /// A daemon process with this PID is alive.
    Running { pid: i32 },
    /// No daemon is running.
    NotRunning,
    /// A daemon process is alive but its socket file is missing.
    Corrupted(Error),
    /// The PID file could not be read, so nothing is known.
    StateUnknown(Error),
    /// A daemon process was just spawned.
    ProcessCreated,
    /// The daemon was just asked to stop.
    StopRequested,
}

/// How sending a signal to a process went.
#[derive(Clone, Copy, Debug, PartialEq, Eq, Structural)]
pub enum SignalOutcome {
    /// The signal was delivered.
    Delivered,
    /// No process has that PID (`ESRCH`).
    NoSuchProcess,
    /// The process exists but may not be signalled (`EPERM`).
    PermissionDenied,
    /// Any other failure.
    Failed,
}

/// Whether a process is alive, from the outcome of sending it the null
/// signal. A refused or failed probe leaves the question open, and is not
/// handled.
pub fn is_process_alive(probe: SignalOutcome) -> (r: bool)
    requires
        probe == SignalOutcome::Delivered || probe == SignalOutcome::NoSuchProcess,
    ensures
        r == (probe == SignalOutcome::Delivered),
{
    match probe {
        SignalOutcome::Delivered => true,
        _ => false,
    }
}

/// Whether `e` is an error of no particular kind whose message is `text`.
pub open spec fn is_other_error(e: Error, text: Seq<char>) -> bool {
    e.kind == ErrorKind::Other && e.payload is Some && e.payload.unwrap()@ == text
}

/// The ways reading the PID file can fail.
pub open spec fn is_read_failure(kind: pid::ErrorKind) -> bool {
    kind == pid::ErrorKind::PidFileNotFound || kind == pid::ErrorKind::ReadFromPidFile
        || kind == pid::ErrorKind::InvalidPidFileContent
}

/// What a status check found, and which stale files it leaves to remove.
#[derive(Debug)]
pub struct StatusCheck {
    pub state: State,
    pub remove_pid_file: bool,
    pub remove_socket: bool,
}

/// The message of a daemon found alive without its socket file.
pub open spec fn missing_socket_text() -> Seq<char> {
    "daemon process is alive but socket file is missing"@
}

/// The daemon's state, from the outcome of reading the PID file, whether the
/// process it names is alive and whether the socket file exists. A PID file
/// of a dead process, and a socket file with no live daemon, are stale.
pub fn status(read: Result<i32, pid::Error>, alive: bool, socket_exists: bool) -> (r: StatusCheck)
    requires
        read matches Err(e) ==> is_read_failure(e.kind),
    ensures
        r.remove_pid_file == (read is Ok && !alive),
        r.remove_pid_file || r.remove_socket ==> r.state is NotRunning,
        match read {
            Err(e) => if e.kind == pid::ErrorKind::PidFileNotFound {
                r.state is NotRunning && r.remove_socket == socket_exists
            } else {
                r.state is StateUnknown && is_other_error(r.state->StateUnknown_0, pid::error_text(e))
                    && !r.remove_socket
            },
            Ok(p) => if !alive {
                r.state is NotRunning && r.remove_socket == socket_exists
            } else if socket_exists {
                r.state is Running && r.state->pid == p && !r.remove_socket
            } else {
                r.state is Corrupted && is_other_error(r.state->Corrupted_0, missing_socket_text())
                    && !r.remove_socket
            },
        },
{
    let live: Option<i32> = match &read {
        Ok(p) => {
            if alive { Some(*p) } else { None }
        },
        Err(e) => {
            if e.kind() == pid::ErrorKind::PidFileNotFound {
                None
            } else {
                return StatusCheck {
                    state: State::StateUnknown(Error::other(e.message())),
                    remove_pid_file: false,
                    remove_socket: false,
                };
            }
        },
    };
    let remove_pid_file = read.is_ok() && !alive;
    match live {
        Some(p) => {
            if socket_exists {
                StatusCheck { state: State::Running { pid: p }, remove_pid_file, remove_socket: false }
            } else {
                StatusCheck {
                    state: State::Corrupted(Error::other(String::from_str("daemon process is alive but socket file is missing"))),
                    remove_pid_file,
                    remove_socket: false,
                }
            }
        },
        None => StatusCheck { state: State::NotRunning, remove_pid_file, remove_socket: socket_exists },
    }
}

/// The states a status check can end in.
pub open spec fn is_status(s: State) -> bool {
    s is Running || s is NotRunning || s is Corrupted || s is StateUnknown
}

/// The message of an error that wraps `e`.
pub open spec fn wraps(w: Error, e: Error) -> bool {
    is_other_error(w, crate::client::error::error_text(e))
}

/// Starting the daemon, first step: from the current state, `Ok(None)` to go
/// on and spawn it, `Ok(Some(..))` when it already runs, or the failure.
pub fn before_create(status: State) -> (r: Result<Option<State>, Error>)
    requires
        is_status(status),
    ensures
        match status {
            State::NotRunning => r matches Ok(None),
            State::Running { pid } => r is Ok && r.unwrap() is Some && r.unwrap().unwrap() is Running
                && r.unwrap().unwrap()->pid == pid,
            State::Corrupted(e) => r is Err && wraps(r.unwrap_err(), e),
            State::StateUnknown(e) => r is Err && wraps(r.unwrap_err(), e),
            _ => false,
        },
{
    match status {
        State::NotRunning => Ok(None),
        State::Running { pid } => Ok(Some(State::Running { pid })),
        State::Corrupted(e) => Err(Error::other(e.message())),
        State::StateUnknown(e) => Err(Error::other(e.message())),
        State::ProcessCreated => Ok(None),
        State::StopRequested => Ok(None),
    }
}

/// Starting the daemon, last step: from the outcome of spawning it (the
/// child's id, or the message of the failure to find the executable or to
/// spawn it).
pub fn after_spawn(spawned: Result<u32, String>) -> (r: Result<State, Error>)
    ensures
        match spawned {
            Ok(_) => r is Ok && r.unwrap() is ProcessCreated,
            Err(m) => r is Err && is_other_error(r.unwrap_err(), m@),
        },
{
    match spawned {
        Ok(_) => Ok(State::ProcessCreated),
        Err(m) => Err(Error::other(m)),
    }
}

/// The argument that makes the program run as the daemon.
pub fn daemon_init_arg() -> (r: String)
    ensures
        r@ == "--"@ + INTERNAL_DAEMON_INIT_FLAG@,
{
    let mut r = String::from_str("--");
    r.append(INTERNAL_DAEMON_INIT_FLAG);
    r
}

/// Stopping the daemon, first step: from the current state, the PID to send
/// the stop signal to, `Ok(None)` when no daemon runs, or the failure.
pub fn before_destroy(status: State) -> (r: Result<Option<i32>, Error>)
    requires
        is_status(status),
    ensures
        match status {
            State::Running { pid } => r == Ok::<Option<i32>, Error>(Some(pid)),
            State::NotRunning => r matches Ok(None),
            State::Corrupted(e) => r is Err && wraps(r.unwrap_err(), e),
            State::StateUnknown(e) => r is Err && wraps(r.unwrap_err(), e),
            _ => false,
        },
{
    match status {
        State::Running { pid } => Ok(Some(pid)),
        State::NotRunning => Ok(None),
        State::Corrupted(e) => Err(Error::other(e.message())),
        State::StateUnknown(e) => Err(Error::other(e.message())),
        State::ProcessCreated => Ok(None),
        State::StopRequested => Ok(None),
    }
}

/// Stopping the daemon, last step: from the outcome of sending it `SIGTERM`
/// (the system's message on failure).
pub fn after_stop_signal(sent: Result<(), String>) -> (r: Result<State, Error>)
    ensures
        match sent {
            Ok(_) => r is Ok && r.unwrap() is StopRequested,
            Err(m) => r is Err && is_other_error(r.unwrap_err(), m@),
        },
{
    match sent {
        Ok(()) => Ok(State::StopRequested),
        Err(m) => Err(Error::other(m)),
    }
}

} // verus!
