//! Command-line schema of the daemon-and-client with `peer` commands.

use vstd::prelude::*;

verus! {

/// Hidden flag with which the client re-runs its own binary as the daemon.
pub const INTERNAL_DAEMON_INIT_FLAG: &'static str = "initializedaemoninternalcmd";

/// The main application's command line.
#[derive(Clone, Debug)]
pub struct Cli {
    pub init_internal: bool,
    pub command: Option<Command>,
}

#[derive(Clone, Debug)]
pub enum Command {
    /// Peer-related actions.
    Peer { subcmd: PeerCmd },
    /// Daemon actions.
    Daemon { subcmd: DaemonCmd },
    /// Start an interactive terminal session.
    Interactive,
}

/// The interactive session's commands.
#[derive(Clone, Debug)]
pub enum InteractiveCommand {
    Peer(PeerCmd),
    /// Quit the interactive session.
    Quit,
}

#[derive(Clone, Debug)]
pub enum DaemonCmd {
    /// Start the daemon.
    Start,
    /// Stop the daemon.
    Stop,
    /// Get the daemon's status.
    Status,
}

/// Peer-related commands, common to both modes.
#[derive(Clone, Debug)]
pub enum PeerCmd {
    /// Connect to the peer.
    Connect { peer_id: String },
    /// List connected peers.
    List,
    /// Send a message to a peer.
    Send { peer_id: String, message: String },
}

} // verus!
