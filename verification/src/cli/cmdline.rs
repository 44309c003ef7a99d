//! Commands of the client with flattened peer commands, on the command line and in its REPL.

use vstd::prelude::*;

verus! {

/// The main application's command line.
#[derive(Clone, Debug)]
pub struct Cmdline {
    pub command: Command,
}

#[derive(Clone, Debug)]
pub enum Command {
    PeerCommand(PeerCmd),
    /// Daemon actions.
    Daemon { command: DaemonCmd },
    /// Start an interactive terminal session.
    Interactive,
}

#[derive(Clone, Debug)]
pub enum DaemonCmd {
    /// Start the daemon; `initialize` is the hidden flag that runs the daemon itself.
    Start { initialize: bool },
    /// Stop the daemon.
    Stop,
    /// Get the daemon's status.
    Status,
}

/// The interactive terminal's command line.
#[derive(Clone, Debug)]
pub struct InteractiveCmdline {
    pub command: InteractiveCommand,
}

#[derive(Clone, Debug)]
pub enum InteractiveCommand {
    PeerCommand(PeerCmd),
    /// Quit the interactive session.
    Quit,
}

/// Messaging commands, common to both modes.
#[derive(Clone, Debug)]
pub enum PeerCmd {
    /// Connect to the peer.
    Connect { peer_id: String },
    /// List connected peers.
    Peers,
    /// Send a message to a peer.
    Send { peer_id: String, message: String },
}

} // verus!
