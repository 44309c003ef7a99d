//! The first daemon service: where its PID file lies and what starting it
//! decides.

use vstd::prelude::*;
use crate::paths::{join, join_path};
use crate::text::{decimal, u64_text};

verus! {

/// The PID file's path: in the runtime directory when one is set, else
/// under the home directory.
pub fn pid_file_path(runtime_dir: &Option<String>, home: &Option<String>) -> (r: String)
    requires
        runtime_dir is Some || home is Some,
    ensures
        r@ == match runtime_dir {
            Some(d) => join(d@, "p2pchat.pid"@),
            None => join(home.unwrap()@, ".local/run/p2pchat.pid"@),
        },
{
    match runtime_dir {
        Some(d) => join_path(d.as_str(), "p2pchat.pid"),
        None => match home {
            Some(h) => join_path(h.as_str(), ".local/run/p2pchat.pid"),
            None => String::new(),
        },
    }
}

/// What `daemon start` does, given the PID its PID file holds (if any) and
/// whether that process is alive.
#[derive(Debug)]
pub enum StartPlan {
    /// A daemon runs already: say so and stop.
    AlreadyRunning,
    /// Start the daemon, after removing the stale PID file of `stale`, if any.
    Start { stale: Option<u32> },
}

/// What `daemon start` does, given the PID its PID file holds and whether
/// that process is alive.
pub fn start_plan(read: Option<u32>, alive: bool) -> (r: StartPlan)
    ensures
        (read is Some && alive) <==> r is AlreadyRunning,
        r matches StartPlan::Start { stale } ==> stale == read,
{
    match read {
        Some(p) => {
            if alive {
                StartPlan::AlreadyRunning
            } else {
                StartPlan::Start { stale: Some(p) }
            }
        },
        None => StartPlan::Start { stale: None },
    }
}

/// The line shown when a daemon runs already.
pub const ALREADY_RUNNING_LINE: &'static str = "Daemon already running, use `daemon connect` to connect.";

/// The line shown after the stale PID file of `pid` was removed.
pub fn stale_pid_line(pid: u32) -> (r: String)
    ensures
        r@ == "Found stale PID file with PID "@ + decimal(pid as nat) + " and removed it, starting daemon."@,
{
    let mut r = String::from_str("Found stale PID file with PID ");
    let n = u64_text(pid as u64);
    r.append(n.as_str());
    r.append(" and removed it, starting daemon.");
    r
}

/// The arguments with which the program is re-run as the daemon.
pub fn daemon_args() -> (r: Vec<&'static str>)
    ensures
        r@ == seq!["daemon", "start", "--initialize"],
{
    vec!["daemon", "start", "--initialize"]
}

/// The line the daemon shows once it wrote its PID file.
pub fn running_line(pid: u32) -> (r: String)
    ensures
        r@ == "Daemon is running with PID "@ + decimal(pid as nat)
            + " (but it will now immediately die after this message."@,
{
    let mut r = String::from_str("Daemon is running with PID ");
    let n = u64_text(pid as u64);
    r.append(n.as_str());
    r.append(" (but it will now immediately die after this message.");
    r
}

} // verus!
