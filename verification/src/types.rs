//! Messages of the standalone daemon: chat messages,
//! client commands and the daemon's responses.

use vstd::prelude::*;
use crate::message;
use crate::message::{err, out, response_text};

verus! {

/// A message sent between peers.
#[derive(Clone, Debug)]
pub struct Message {
    pub sender: String,
    pub content: String,
}

impl Message {
    /// A message from `sender` with `content`.
    pub fn new(sender: String, content: String) -> (m: Message)
        ensures
            m.sender == sender,
            m.content == content,
    {
        Message { sender, content }
    }
}

/// Messages over the client-daemon socket.
#[derive(Clone, Debug)]
pub enum IpcMessage {
    /// A command from the client to the daemon.
    Command(Command),
    /// A response or notification from the daemon to the client.
    Response(Response),
}

/// Commands the client sends to the daemon.
#[derive(Clone, Debug)]
pub enum Command {
    /// Connect to a peer by its endpoint.
    Connect { endpoint: String },
    /// Send a message to a peer.
    Send { peer_id: String, content: String },
}

/// Responses the daemon sends to the client.
#[derive(Clone, Debug)]
pub enum Response {
    /// A message that arrived from a peer.
    Message(Message),
    /// A command succeeded.
    Success(String),
    /// A command failed.
    Error(String),
}

/// The reply to a connect command, given the connection's outcome (the
/// peer's id, or the reason of the failure), in the form the line client
/// reads and shows: a success result, or an error.
pub fn connect_response(outcome: Result<String, String>) -> (r: message::Response)
    ensures
        match outcome {
            Ok(peer) => r matches message::Response::Result { success, message }
                && success && message@ == "Connected to peer: "@ + peer@,
            Err(e) => r matches message::Response::Error(t) && t@ == "Connection failed: "@ + e@,
        },
        response_text(r) == match outcome {
            Ok(peer) => seq![out("✓ "@ + ("Connected to peer: "@ + peer@))],
            Err(e) => seq![err("Error: "@ + ("Connection failed: "@ + e@))],
        },
{
    match outcome {
        Ok(peer) => {
            let mut t = String::from_str("Connected to peer: ");
            t.append(peer.as_str());
            message::Response::Result { success: true, message: t }
        },
        Err(e) => {
            let mut t = String::from_str("Connection failed: ");
            t.append(e.as_str());
            message::Response::Error(t)
        },
    }
}

/// The reply to a send command to `peer_id`, given the sending's outcome,
/// in the form the line client reads and shows: a success result, or an
/// error.
pub fn send_response(peer_id: &str, outcome: Result<(), String>) -> (r: message::Response)
    ensures
        match outcome {
            Ok(()) => r matches message::Response::Result { success, message }
                && success && message@ == "Message sent to "@ + peer_id@,
            Err(e) => r matches message::Response::Error(t) && t@ == "Failed: "@ + e@,
        },
        response_text(r) == match outcome {
            Ok(()) => seq![out("✓ "@ + ("Message sent to "@ + peer_id@))],
            Err(e) => seq![err("Error: "@ + ("Failed: "@ + e@))],
        },
{
    match outcome {
        Ok(()) => {
            let mut t = String::from_str("Message sent to ");
            t.append(peer_id);
            message::Response::Result { success: true, message: t }
        },
        Err(e) => {
            let mut t = String::from_str("Failed: ");
            t.append(e.as_str());
            message::Response::Error(t)
        },
    }
}

} // verus!
