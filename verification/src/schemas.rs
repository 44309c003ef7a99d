//! Messages between the client and the daemon, and from the daemon's
//! networking layer to its core.

use vstd::prelude::*;
use vstd::std_specs::convert::FromSpecImpl;
use crate::cli_interface::{CommunicateCmd, InfoCmd, InteractiveCommand};

verus! {

/// A request of the client to the daemon.
#[derive(Clone, Debug)]
pub enum ClientRequest {
    /// Disconnect from the peer with this endpoint id.
    Disconnect { peer_id: String },
    /// Connect to the peer named by this ticket.
    Connect { peer_id: String },
    /// Send a text message to a connected peer.
    Send { peer_id: String, message: String },
    /// List the connected peers.
    List,
    /// Show the daemon's own ticket.
    MyID,
    /// The client is about to leave; the daemon keeps running.
    Bye,
}

impl FromSpecImpl<InteractiveCommand> for ClientRequest {
    open spec fn obeys_from_spec() -> bool {
        true
    }

    open spec fn from_spec(command: InteractiveCommand) -> ClientRequest {
        match command {
            InteractiveCommand::Communicate(CommunicateCmd::Disconnect { peer_id }) => ClientRequest::Disconnect { peer_id },
            InteractiveCommand::Communicate(CommunicateCmd::Connect { peer_id }) => ClientRequest::Connect { peer_id },
            InteractiveCommand::Communicate(CommunicateCmd::Send { peer_id, message }) => ClientRequest::Send { peer_id, message },
            InteractiveCommand::Info(InfoCmd::List) => ClientRequest::List,
            InteractiveCommand::Info(InfoCmd::Myid) => ClientRequest::MyID,
            InteractiveCommand::Quit => ClientRequest::Bye,
        }
    }
}

impl From<InteractiveCommand> for ClientRequest {
    fn from(command: InteractiveCommand) -> (r: ClientRequest) {
        match command {
            InteractiveCommand::Communicate(CommunicateCmd::Disconnect { peer_id }) => ClientRequest::Disconnect { peer_id },
            InteractiveCommand::Communicate(CommunicateCmd::Connect { peer_id }) => ClientRequest::Connect { peer_id },
            InteractiveCommand::Communicate(CommunicateCmd::Send { peer_id, message }) => ClientRequest::Send { peer_id, message },
            InteractiveCommand::Info(InfoCmd::List) => ClientRequest::List,
            InteractiveCommand::Info(InfoCmd::Myid) => ClientRequest::MyID,
            InteractiveCommand::Quit => ClientRequest::Bye,
        }
    }
}

/// What the daemon tells the client: answers to requests and unsolicited notices.
#[derive(Clone, Debug)]
pub enum DaemonEvent {
    /// The daemon's own ticket.
    MyId { endpoint_id: String },
    /// The ids of the connected peers.
    PeerList { peers: Vec<String> },
    /// A request succeeded; `info` is for the user.
    Success { info: String },
    /// A request failed; `message` is for the user.
    Error { message: String },
    /// A peer connected.
    PeerConnected { peer_id: String },
    /// A peer disconnected.
    PeerDisconnected { peer_id: String },
    /// A chat message arrived from a peer.
    PeerMessage { peer_id: String, message: String, timestamp_secs: i64 },
}

/// What the networking layer reports to the daemon's core.
#[derive(Clone, Debug)]
pub enum NetEvent {
    /// A peer is connected and ready to exchange messages.
    PeerConnected { peer_id: String },
    /// A previously connected peer went away.
    PeerDisconnected { peer_id: String },
    /// A chat message arrived from `peer_id`.
    PeerMessage { peer_id: String, message: String, timestamp_secs: i64 },
}

impl FromSpecImpl<NetEvent> for DaemonEvent {
    open spec fn obeys_from_spec() -> bool {
        true
    }

    open spec fn from_spec(event: NetEvent) -> DaemonEvent {
        match event {
            NetEvent::PeerConnected { peer_id } => DaemonEvent::PeerConnected { peer_id },
            NetEvent::PeerDisconnected { peer_id } => DaemonEvent::PeerDisconnected { peer_id },
            NetEvent::PeerMessage { peer_id, message, timestamp_secs } => DaemonEvent::PeerMessage { peer_id, message, timestamp_secs },
        }
    }
}

impl From<NetEvent> for DaemonEvent {
    fn from(event: NetEvent) -> (r: DaemonEvent) {
        match event {
            NetEvent::PeerConnected { peer_id } => DaemonEvent::PeerConnected { peer_id },
            NetEvent::PeerDisconnected { peer_id } => DaemonEvent::PeerDisconnected { peer_id },
            NetEvent::PeerMessage { peer_id, message, timestamp_secs } => DaemonEvent::PeerMessage { peer_id, message, timestamp_secs },
        }
    }
}

} // verus!
