//! Messages of the standalone line client and daemon: chat messages, the
//! commands the client sends, the daemon's responses, and how the client
//! shows a response.

use vstd::prelude::*;
use crate::clock::{chrono_utc_valid, clock_text, unix_time_secs, utc_clock_text, utc_instant_exists};
use crate::text::{decimal, u64_text};

verus! {

/// A message sent between peers.
#[derive(Clone, Debug)]
pub struct Message {
    /// Sender's peer id.
    pub sender: String,
    /// Unix timestamp of the message's creation, in seconds.
    pub timestamp: u64,
    /// Message content.
    pub content: String,
}

/// Whether a message's timestamp can be shown: it fits a system time and
/// `chrono` has a date for it.
pub open spec fn showable(timestamp: u64) -> bool {
    timestamp <= i64::MAX && chrono_utc_valid(timestamp as i64)
}

/// How a message is shown: `[HH:MM:SS] sender: content`, the time in UTC.
pub open spec fn display_text(m: Message) -> Seq<char> {
    seq!['['] + clock_text(m.timestamp as nat) + "] "@ + m.sender@ + ": "@ + m.content@
}

impl Message {
    /// A message from `sender` with `content`, stamped with the current time.
    pub fn new(sender: String, content: String) -> (m: Message)
        ensures
            m.sender == sender,
            m.content == content,
    {
        let timestamp = unix_time_secs();
        Message { sender, timestamp, content }
    }

    /// A message from `sender` with `content`, stamped with `timestamp`.
    pub fn with_timestamp(sender: String, content: String, timestamp: u64) -> (m: Message)
        ensures
            m.sender == sender,
            m.content == content,
            m.timestamp == timestamp,
    {
        Message { sender, timestamp, content }
    }

    /// The message as shown to the user.
    pub fn display(&self) -> (s: String)
        requires
            showable(self.timestamp),
        ensures
            s@ == display_text(*self),
    {
        let mut s = String::new();
        crate::text::push_char(&mut s, '[');
        let t = utc_clock_text(self.timestamp);
        s.append(t.as_str());
        s.append("] ");
        s.append(self.sender.as_str());
        s.append(": ");
        s.append(self.content.as_str());
        s
    }

    /// The message as shown to the user, or `None` when its timestamp cannot be shown.
    pub fn display_checked(&self) -> (r: Option<String>)
        ensures
            r is Some <==> showable(self.timestamp),
            r matches Some(s) ==> s@ == display_text(*self),
    {
        if self.timestamp <= i64::MAX as u64 && utc_instant_exists(self.timestamp as i64) {
            Some(self.display())
        } else {
            None
        }
    }
}

/// Messages over the client-daemon socket.
#[derive(Clone, Debug)]
pub enum IpcMessage {
    /// A command from the client to the daemon.
    Command(Command),
    /// A response or notification from the daemon to the client.
    Response(Response),
}

/// Commands the client sends to the daemon.
#[derive(Clone, Debug)]
pub enum Command {
    /// Ask for the node's status.
    Status,
    /// List the connected peers.
    ListPeers,
    /// Connect to a peer by its endpoint.
    Connect { endpoint: String },
    /// Send a message to a peer.
    Send { peer_id: String, content: String },
    /// Disconnect from the daemon.
    Quit,
}

/// Responses the daemon sends to the client.
#[derive(Clone, Debug)]
pub enum Response {
    /// The node's status.
    Status { node_id: String, local_endpoints: Vec<String>, peers: Vec<PeerInfo> },
    /// The connected peers.
    Peers(Vec<PeerInfo>),
    /// A message that arrived from a peer.
    Message(Message),
    /// The outcome of a command.
    Result { success: bool, message: String },
    /// An error.
    Error(String),
}

/// A connected peer.
#[derive(Clone, Debug)]
pub struct PeerInfo {
    pub peer_id: String,
    pub endpoint: String,
    pub connected: bool,
}

/// One line of output: its text, and whether it goes to standard error.
pub struct OutputLine {
    pub to_stderr: bool,
    pub text: String,
}

pub open spec fn line_view(l: OutputLine) -> (bool, Seq<char>) {
    (l.to_stderr, l.text@)
}

pub open spec fn out(t: Seq<char>) -> (bool, Seq<char>) {
    (false, t)
}

pub open spec fn err(t: Seq<char>) -> (bool, Seq<char>) {
    (true, t)
}

/// The lines listing some peers, each with the given indentation.
pub open spec fn peer_lines(peers: Seq<PeerInfo>, indent: Seq<char>) -> Seq<(bool, Seq<char>)> {
    peers.map_values(|p: PeerInfo| out(indent + p.peer_id@ + " - "@ + p.endpoint@))
}

/// The lines listing some endpoints.
pub open spec fn endpoint_lines(eps: Seq<String>) -> Seq<(bool, Seq<char>)> {
    eps.map_values(|e: String| out("  "@ + e@))
}

/// How the client shows a response, line by line.
pub open spec fn response_text(r: Response) -> Seq<(bool, Seq<char>)> {
    match r {
        Response::Status { node_id, local_endpoints, peers } =>
            seq![out("=== Daemon Status ==="@), out("Node ID: "@ + node_id@), out("Local Endpoints:"@)]
                + endpoint_lines(local_endpoints@)
                + seq![out("Connected Peers: "@ + decimal(peers@.len()))]
                + peer_lines(peers@, "  "@),
        Response::Peers(peers) =>
            seq![out("=== Connected Peers ==="@)] + (if peers@.len() == 0 {
                seq![out("No connected peers"@)]
            } else {
                peer_lines(peers@, ""@)
            }),
        Response::Message(m) => seq![out(display_text(m))],
        Response::Result { success, message } =>
            if success { seq![out("✓ "@ + message@)] } else { seq![err("✗ "@ + message@)] },
        Response::Error(e) => seq![err("Error: "@ + e@)],
    }
}

/// Whether a response can be shown (a message's timestamp must be showable).
pub open spec fn response_showable(r: Response) -> bool {
    match r {
        Response::Message(m) => showable(m.timestamp),
        _ => true,
    }
}

/// Law: the status screen counts the connected peers. Shown, a status
/// response gives its header, the node id, the local endpoints one per line,
/// a line that counts the connected peers in decimal, and then exactly that
/// many lines, one per peer, each naming the peer and its endpoint.
pub proof fn lemma_status_counts_peers(node_id: String, local_endpoints: Vec<String>, peers: Vec<PeerInfo>)
    ensures
        ({
            let t = response_text(Response::Status { node_id, local_endpoints, peers });
            let k: int = 3 + local_endpoints@.len() as int;
            &&& t.len() == k + 1 + peers@.len()
            &&& t[0] == out("=== Daemon Status ==="@)
            &&& t[1] == out("Node ID: "@ + node_id@)
            &&& forall|i: int| 0 <= i < local_endpoints@.len() ==> #[trigger] t[3 + i] == out("  "@ + local_endpoints@[i]@)
            &&& t[k] == out("Connected Peers: "@ + decimal((t.len() - k - 1) as nat))
            &&& t[k] == out("Connected Peers: "@ + decimal(peers@.len()))
            &&& forall|j: int| 0 <= j < peers@.len() ==> #[trigger] t[k + 1 + j]
                == out("  "@ + peers@[j].peer_id@ + " - "@ + peers@[j].endpoint@)
        }),
{
    let t = response_text(Response::Status { node_id, local_endpoints, peers });
    let k: int = 3 + local_endpoints@.len() as int;
    let head = seq![out("=== Daemon Status ==="@), out("Node ID: "@ + node_id@), out("Local Endpoints:"@)];
    let eps = endpoint_lines(local_endpoints@);
    let count = seq![out("Connected Peers: "@ + decimal(peers@.len()))];
    let ps = peer_lines(peers@, "  "@);
    assert(t == head + eps + count + ps);
    assert forall|i: int| 0 <= i < local_endpoints@.len() implies #[trigger] t[3 + i] == out("  "@ + local_endpoints@[i]@) by {
        assert(t[3 + i] == eps[i]);
    }
    assert(t[k] == count[0]);
    assert forall|j: int| 0 <= j < peers@.len() implies #[trigger] t[k + 1 + j]
        == out("  "@ + peers@[j].peer_id@ + " - "@ + peers@[j].endpoint@) by {
        assert(t[k + 1 + j] == ps[j]);
    }
}

fn line(to_stderr: bool, text: String) -> (l: OutputLine)
    ensures
        l.to_stderr == to_stderr,
        l.text == text,
{
    OutputLine { to_stderr, text }
}

fn push_peer_lines(lines: &mut Vec<OutputLine>, peers: &Vec<PeerInfo>, indent: &str)
    ensures
        final(lines)@.map_values(|l: OutputLine| line_view(l))
            == old(lines)@.map_values(|l: OutputLine| line_view(l)) + peer_lines(peers@, indent@),
{
    let ghost start = lines@.map_values(|l: OutputLine| line_view(l));
    let mut i: usize = 0;
    while i < peers.len()
        invariant
            i <= peers@.len(),
            lines@.map_values(|l: OutputLine| line_view(l)) == start + peer_lines(peers@, indent@).take(i as int),
        decreases peers@.len() - i,
    {
        let mut t = indent.to_owned();
        t.append(peers[i].peer_id.as_str());
        t.append(" - ");
        t.append(peers[i].endpoint.as_str());
        let ghost before = lines@;
        lines.push(line(false, t));
        assert(lines@.map_values(|l: OutputLine| line_view(l))
            =~= before.map_values(|l: OutputLine| line_view(l)).push(line_view(lines@.last())));
        assert(peer_lines(peers@, indent@).take(i + 1)
            =~= peer_lines(peers@, indent@).take(i as int).push(peer_lines(peers@, indent@)[i as int]));
        i = i + 1;
    }
    assert(peer_lines(peers@, indent@).take(i as int) =~= peer_lines(peers@, indent@));
}

/// How the client shows a response (`print_response`), line by line.
pub fn response_lines(resp: &Response) -> (lines: Vec<OutputLine>)
    requires
        response_showable(*resp),
    ensures
        lines@.map_values(|l: OutputLine| line_view(l)) == response_text(*resp),
{
    let mut lines: Vec<OutputLine> = Vec::new();
    match resp {
        Response::Status { node_id, local_endpoints, peers } => {
            lines.push(line(false, String::from_str("=== Daemon Status ===")));
            let mut t = String::from_str("Node ID: ");
            t.append(node_id.as_str());
            lines.push(line(false, t));
            lines.push(line(false, String::from_str("Local Endpoints:")));
            let ghost head = lines@.map_values(|l: OutputLine| line_view(l));
            assert(head =~= seq![out("=== Daemon Status ==="@), out("Node ID: "@ + node_id@), out("Local Endpoints:"@)]);
            let mut i: usize = 0;
            while i < local_endpoints.len()
                invariant
                    i <= local_endpoints@.len(),
                    lines@.map_values(|l: OutputLine| line_view(l))
                        == head + endpoint_lines(local_endpoints@).take(i as int),
                decreases local_endpoints@.len() - i,
            {
                let mut e = String::from_str("  ");
                e.append(local_endpoints[i].as_str());
                let ghost before = lines@;
                lines.push(line(false, e));
                assert(lines@.map_values(|l: OutputLine| line_view(l))
                    =~= before.map_values(|l: OutputLine| line_view(l)).push(line_view(lines@.last())));
                assert(endpoint_lines(local_endpoints@).take(i + 1)
                    =~= endpoint_lines(local_endpoints@).take(i as int).push(endpoint_lines(local_endpoints@)[i as int]));
                i = i + 1;
            }
            assert(endpoint_lines(local_endpoints@).take(i as int) =~= endpoint_lines(local_endpoints@));
            let mut c = String::from_str("Connected Peers: ");
            let n = u64_text(peers.len() as u64);
            c.append(n.as_str());
            let ghost before_count = lines@;
            lines.push(line(false, c));
            assert(lines@.map_values(|l: OutputLine| line_view(l))
                =~= before_count.map_values(|l: OutputLine| line_view(l)).push(line_view(lines@.last())));
            assert(lines@.map_values(|l: OutputLine| line_view(l)) =~= head + endpoint_lines(local_endpoints@)
                + seq![out("Connected Peers: "@ + decimal(peers@.len()))]);
            push_peer_lines(&mut lines, peers, "  ");
            assert(lines@.map_values(|l: OutputLine| line_view(l)) =~= response_text(*resp));
        },
        Response::Peers(peers) => {
            lines.push(line(false, String::from_str("=== Connected Peers ===")));
            if peers.len() == 0 {
                lines.push(line(false, String::from_str("No connected peers")));
            } else {
                push_peer_lines(&mut lines, peers, "");
            }
            assert(lines@.map_values(|l: OutputLine| line_view(l)) =~= response_text(*resp));
        },
        Response::Message(m) => {
            lines.push(line(false, m.display()));
            assert(lines@.map_values(|l: OutputLine| line_view(l)) =~= response_text(*resp));
        },
        Response::Result { success, message } => {
            if *success {
                let mut t = String::from_str("✓ ");
                t.append(message.as_str());
                lines.push(line(false, t));
            } else {
                let mut t = String::from_str("✗ ");
                t.append(message.as_str());
                lines.push(line(true, t));
            }
            assert(lines@.map_values(|l: OutputLine| line_view(l)) =~= response_text(*resp));
        },
        Response::Error(e) => {
            let mut t = String::from_str("Error: ");
            t.append(e.as_str());
            lines.push(line(true, t));
            assert(lines@.map_values(|l: OutputLine| line_view(l)) =~= response_text(*resp));
        },
    }
    lines
}

/// How the client shows a response, or `None` when it holds a message whose
/// timestamp cannot be shown.
pub fn response_lines_checked(resp: &Response) -> (r: Option<Vec<OutputLine>>)
    ensures
        r is Some <==> response_showable(*resp),
        r matches Some(lines) ==> lines@.map_values(|l: OutputLine| line_view(l)) == response_text(*resp),
{
    let ok = match resp {
        Response::Message(m) => m.timestamp <= i64::MAX as u64 && utc_instant_exists(m.timestamp as i64),
        _ => true,
    };
    if ok {
        Some(response_lines(resp))
    } else {
        None
    }
}

} // verus!
