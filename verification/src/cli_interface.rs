//! Command-line interface of the chat: the commands the user can give, on the
//! command line and in the interactive session, and the check of log levels.
//!
//! The argument grammar itself is declared on copies of these types outside
//! the library, where the command-line parser's derives can stand.

use vstd::prelude::*;

verus! {

/// Hidden flag with which the client re-runs its own binary as the daemon.
pub const INTERNAL_DAEMON_INIT_FLAG: &'static str = "initializedaemoninternalcmd";

/// The main application's command line.
#[derive(Clone, Debug)]
pub struct Cli {
    /// Internal flag to actually start the daemon (not for users).
    pub init_daemon_internal: bool,
    /// Log level for client-side logs (`error|warn|info|debug`).
    pub cli_log_level: String,
    pub command: Option<Command>,
}

#[derive(Clone, Debug)]
pub enum Command {
    /// Daemon control commands.
    Daemon { subcmd: DaemonCmd },
    /// Client commands.
    Client { subcmd: ClientCmd },
    Info(InfoCmd),
}

#[derive(Clone, Debug)]
pub enum ClientCmd {
    /// Placeholder (not implemented).
    Placeholder,
    /// Start an interactive terminal session.
    Interactive,
}

#[derive(Clone, Debug)]
pub enum DaemonCmd {
    /// Start the daemon, logging at `daemon_log_level`.
    Start { daemon_log_level: String },
    /// Stop the daemon.
    Stop,
    /// Report whether the daemon runs.
    Status,
}

/// A command of the interactive session.
#[derive(Clone, Debug)]
pub enum InteractiveCommand {
    Communicate(CommunicateCmd),
    Info(InfoCmd),
    /// Quit the interactive session.
    Quit,
}

/// Commands that act on peers.
#[derive(Clone, Debug)]
pub enum CommunicateCmd {
    /// Disconnect from the peer.
    Disconnect { peer_id: String },
    /// Connect to the peer named by a ticket (as shown by `myid`) or an endpoint id.
    Connect { peer_id: String },
    /// Send a message to a peer.
    Send { peer_id: String, message: String },
}

/// Commands that ask the daemon for information.
#[derive(Clone, Debug)]
pub enum InfoCmd {
    /// List connected peers.
    List,
    /// Show this node's ticket.
    Myid,
}

/// The log levels a user may choose.
pub open spec fn is_valid_log_level(level: Seq<char>) -> bool {
    level == "error"@ || level == "warn"@ || level == "info"@ || level == "debug"@
}

/// Message that refuses an unknown log level.
pub open spec fn invalid_log_level_text(level: Seq<char>) -> Seq<char> {
    "invalid log level '"@ + level + "'. Expected one of: error, warn, info, debug"@
}

/// Accepts one of `error`, `warn`, `info`, `debug` as a log level.
pub fn parse_log_level(level: &str) -> (r: Result<String, String>)
    ensures
        r is Ok <==> is_valid_log_level(level@),
        r matches Ok(s) ==> s@ == level@,
        r matches Err(m) ==> m@ == invalid_log_level_text(level@),
{
    let given = level.to_owned();
    if given == String::from_str("error") || given == String::from_str("warn")
        || given == String::from_str("info") || given == String::from_str("debug") {
        Ok(given)
    } else {
        let mut m = String::from_str("invalid log level '");
        m.append(level);
        m.append("'. Expected one of: error, warn, info, debug");
        Err(m)
    }
}

} // verus!
