//! Command-line interface of the client with `peer` commands: its argument schema, and
//! where each command line leads.

pub mod cmdline;
pub mod repl;

use vstd::prelude::*;
use crate::cli_schema::{Cli, Command, DaemonCmd};
use crate::number::{i32_text, int_text};

verus! {

/// Where a command line leads.
#[derive(Debug)]
pub enum Route {
    /// Run as the daemon itself (the hidden flag was given).
    RunDaemon,
    /// Control the daemon.
    DaemonControl(DaemonCmd),
    /// A command that needs a running daemon.
    NeedsDaemon(Command),
}

/// Where a command line leads: the hidden flag runs the daemon, `daemon`
/// commands control it, and the others need it running. The schema demands
/// a command whenever the flag is absent.
pub fn route(cmdline: Cli) -> (r: Route)
    requires
        cmdline.init_internal || cmdline.command is Some,
    ensures
        cmdline.init_internal ==> r is RunDaemon,
        !cmdline.init_internal ==> match cmdline.command.unwrap() {
            Command::Daemon { subcmd } => r is DaemonControl && r->DaemonControl_0 == subcmd,
            c => r is NeedsDaemon && r->NeedsDaemon_0 == c,
        },
{
    if cmdline.init_internal {
        return Route::RunDaemon;
    }
    match cmdline.command {
        Some(Command::Daemon { subcmd }) => Route::DaemonControl(subcmd),
        Some(c) => Route::NeedsDaemon(c),
        None => Route::RunDaemon,
    }
}

/// The lines shown when a command needs the daemon but none runs.
pub const NOT_RUNNING_TEXT: &'static str = "Daemon is not running\nPlease start the daemon first with `daemon start` command";

/// The line `daemon status` shows.
pub fn status_line(pid: Option<i32>) -> (r: String)
    ensures
        r@ == match pid {
            Some(p) => "Daemon is running with PID "@ + int_text(p as int),
            None => "Daemon is not running"@,
        },
{
    match pid {
        Some(p) => {
            let mut r = String::from_str("Daemon is running with PID ");
            let n = i32_text(p);
            r.append(n.as_str());
            r
        },
        None => String::from_str("Daemon is not running"),
    }
}

/// The line that shows the daemon's answer.
pub fn response_line(response: &str) -> (r: String)
    ensures
        r@ == "Daemon response: "@ + response@,
{
    let mut r = String::from_str("Daemon response: ");
    r.append(response);
    r
}

} // verus!
