//! Control of the daemon's lifecycle by the command-line client of the
//! `peer` commands: where the daemon keeps its files, and what starting,
//! stopping and checking it conclude from the PID file, the process and the
//! socket file.

use vstd::prelude::*;
use crate::client::daemon_control::SignalOutcome;
use crate::library::protocol::DAEMON_NAME;
use crate::number::{i32_text, int_text};
use crate::paths::{join, join_path};
use crate::text::{decimal, u64_text};

verus! {

/// Whether a process is alive, from sending it the null signal. A process
/// that exists but may not be signalled is not handled.
pub fn is_process_alive(probe: SignalOutcome) -> (r: bool)
    requires
        probe != SignalOutcome::PermissionDenied,
    ensures
        r == (probe == SignalOutcome::Delivered),
{
    match probe {
        SignalOutcome::Delivered => true,
        _ => false,
    }
}

/// The daemon's directory under the runtime directory.
pub fn runtime_state_dir(runtime_dir: &str) -> (r: String)
    ensures
        r@ == join(runtime_dir@, "p2pchat"@),
{
    join_path(runtime_dir, "p2pchat")
}

/// The daemon's directory under the home directory, used when there is no
/// usable runtime directory.
pub fn cache_state_dir(home: &str) -> (r: String)
    ensures
        r@ == join(home@, ".cache/p2pchat"@),
{
    join_path(home, ".cache/p2pchat")
}

/// The daemon's directory: the one under the runtime directory when it
/// could be created, else the one under the home directory.
pub fn daemon_state_dir(created_runtime_dir: Option<String>, home: &Option<String>) -> (r: String)
    requires
        created_runtime_dir is Some || home is Some,
    ensures
        r@ == match created_runtime_dir {
            Some(d) => d@,
            None => join(home.unwrap()@, ".cache/p2pchat"@),
        },
{
    match created_runtime_dir {
        Some(d) => d,
        None => match home {
            Some(h) => cache_state_dir(h.as_str()),
            None => String::new(),
        },
    }
}

/// The daemon's socket file in the daemon's directory `state_dir`.
pub fn socket_file_path(state_dir: &str) -> (r: String)
    ensures
        r@ == join(state_dir@, DAEMON_NAME@ + ".sock"@),
{
    let mut name = String::from_str(DAEMON_NAME);
    name.append(".sock");
    join_path(state_dir, name.as_str())
}

/// The daemon's PID file in the daemon's directory `state_dir`.
pub fn pid_file_path(state_dir: &str) -> (r: String)
    ensures
        r@ == join(state_dir@, DAEMON_NAME@ + ".pid"@),
{
    let mut name = String::from_str(DAEMON_NAME);
    name.append(".pid");
    join_path(state_dir, name.as_str())
}

/// What a status check concludes: the live daemon's PID, the PID of a stale
/// PID file to remove, and whether a stale socket file is to be removed.
#[derive(Debug)]
pub struct StatusPlan {
    pub pid: Option<i32>,
    pub stale_pid: Option<i32>,
    pub stale_socket: bool,
}

/// The status check, from the PID the PID file holds (if any), whether that
/// process is alive, and whether the socket file exists. A live daemon
/// without its socket file is not handled.
pub fn status(read: Option<i32>, alive: bool, socket_exists: bool) -> (r: StatusPlan)
    requires
        !(read is Some && alive && !socket_exists),
    ensures
        r.pid == (if read is Some && alive { read } else { None::<i32> }),
        r.stale_pid == (if read is Some && !alive { read } else { None::<i32> }),
        r.stale_socket == (socket_exists && r.pid is None),
        r.stale_pid is Some || r.stale_socket ==> r.pid is None,
{
    match read {
        Some(p) => {
            if alive {
                StatusPlan { pid: Some(p), stale_pid: None, stale_socket: false }
            } else {
                StatusPlan { pid: None, stale_pid: Some(p), stale_socket: socket_exists }
            }
        },
        None => StatusPlan { pid: None, stale_pid: None, stale_socket: socket_exists },
    }
}

/// The notice shown after a stale PID file was removed.
pub fn stale_pid_notice(pid: i32) -> (r: String)
    ensures
        r@ == "Found stale daemon PID-file (PID "@ + int_text(pid as int) + ") and removed it"@,
{
    let mut r = String::from_str("Found stale daemon PID-file (PID ");
    let n = i32_text(pid);
    r.append(n.as_str());
    r.append(") and removed it");
    r
}

/// The notice shown after a stale socket file was removed.
pub const STALE_SOCKET_NOTICE: &'static str = "Found stale daemon socket file and removed it";

/// The line shown when `daemon start` finds a daemon running with `pid`.
pub fn already_running_line(pid: i32) -> (r: String)
    ensures
        r@ == "Daemon is already running with PID "@ + int_text(pid as int) + "; aborting"@,
{
    let mut r = String::from_str("Daemon is already running with PID ");
    let n = i32_text(pid);
    r.append(n.as_str());
    r.append("; aborting");
    r
}

/// The line shown once the daemon process `child_id` was spawned.
pub fn started_line(child_id: u32) -> (r: String)
    ensures
        r@ == "Daemon started with pid "@ + decimal(child_id as nat),
{
    let mut r = String::from_str("Daemon started with pid ");
    let n = u64_text(child_id as u64);
    r.append(n.as_str());
    r
}

/// The line shown when `daemon stop` finds no daemon.
pub const NOT_RUNNING_LINE: &'static str = "Daemon is already not running; aborting";

/// What stopping the daemon with `pid` ends with: whether its PID file is
/// stale and to be removed, and the line to show.
#[derive(Debug)]
pub struct StopOutcome {
    pub remove_pid_file: bool,
    pub line: String,
}

/// What stopping the daemon with `pid` ends with, from sending it `SIGTERM`.
pub fn stop_outcome(pid: i32, sent: SignalOutcome) -> (r: StopOutcome)
    ensures
        r.remove_pid_file == (sent == SignalOutcome::NoSuchProcess),
        r.line@ == match sent {
            SignalOutcome::Delivered => "Shutting down the daemon with PID "@ + int_text(pid as int)
                + "\nCheck its status with `daemon status` command"@,
            SignalOutcome::NoSuchProcess => "Daemon process with PID "@ + int_text(pid as int)
                + " does not exist. Removed stale PID file"@,
            SignalOutcome::PermissionDenied => "Permission denied while stopping daemon with PID "@
                + int_text(pid as int),
            SignalOutcome::Failed => "Failed to stop daemon with PID "@ + int_text(pid as int),
        },
{
    let n = i32_text(pid);
    match sent {
        SignalOutcome::Delivered => {
            let mut r = String::from_str("Shutting down the daemon with PID ");
            r.append(n.as_str());
            r.append("\nCheck its status with `daemon status` command");
            StopOutcome { remove_pid_file: false, line: r }
        },
        SignalOutcome::NoSuchProcess => {
            let mut r = String::from_str("Daemon process with PID ");
            r.append(n.as_str());
            r.append(" does not exist. Removed stale PID file");
            StopOutcome { remove_pid_file: true, line: r }
        },
        SignalOutcome::PermissionDenied => {
            let mut r = String::from_str("Permission denied while stopping daemon with PID ");
            r.append(n.as_str());
            StopOutcome { remove_pid_file: false, line: r }
        },
        SignalOutcome::Failed => {
            let mut r = String::from_str("Failed to stop daemon with PID ");
            r.append(n.as_str());
            StopOutcome { remove_pid_file: false, line: r }
        },
    }
}

} // verus!
