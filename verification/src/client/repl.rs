//! The interactive mode of the client: what a line of input leads to, and
//! how the daemon's events are shown.

use vstd::prelude::*;
use crate::cli_interface::InteractiveCommand;
use crate::client::error::{error_text, Error, ErrorKind};
use crate::client::{format_myid_output, myid_text};
use crate::clock::{chrono_utc_valid, format_timestamp, is_clock_text};
use crate::schemas::{ClientRequest, DaemonEvent};
use crate::text::{chars_of, string_of, trim, trim_chars, views};
use vstd::std_specs::convert::FromSpec;

verus! {

/// The prompt of the interactive mode.
pub const PROMPT: &'static str = "> ";

/// The words of `text` as a POSIX shell splits them (`shlex::split`), or
/// `None` where the text is malformed (an unclosed quote, a trailing escape).
pub uninterp spec fn shlex_words(text: Seq<char>) -> Option<Seq<Seq<char>>>;

/// `shlex::split(text)`.
#[verifier::external_body]
fn shlex_split(text: &str) -> (r: Option<Vec<String>>)
    ensures
        r is Some <==> shlex_words(text@) is Some,
        r matches Some(v) ==> views(v@) == shlex_words(text@).unwrap(),
{
    shlex::split(text)
}

/// The words of a line of input, split as a shell would; `None` for a
/// malformed line.
pub fn split_input(raw: &str) -> (r: Option<Vec<String>>)
    ensures
        r is Some <==> shlex_words(raw@) is Some,
        r matches Some(v) ==> views(v@) == shlex_words(raw@).unwrap(),
{
    shlex_split(raw)
}

/// The text shown for a peer list.
pub open spec fn peer_list_text(peers: Seq<Seq<char>>) -> Seq<char>
    decreases peers.len(),
{
    if peers.len() == 0 {
        "Connected peers: "@
    } else {
        peer_list_text(peers.drop_last()) + "\n  - "@ + peers.last()
    }
}

/// The line shown for a chat message stamped with the time of day `time`.
pub open spec fn message_line(time: Seq<char>, peer_id: Seq<char>, message: Seq<char>) -> Seq<char> {
    "["@ + time + "] <"@ + peer_id + "> "@ + message
}

/// How an event of the daemon is shown in the interactive mode; for a chat
/// message, with its time of day in the local time zone.
pub fn render_daemon_event(event: DaemonEvent) -> (r: String)
    ensures
        match event {
            DaemonEvent::MyId { endpoint_id } => r@ == myid_text(endpoint_id@),
            DaemonEvent::PeerList { peers } => r@ == if peers@.len() == 0 {
                "no peers connected"@
            } else {
                peer_list_text(views(peers@))
            },
            DaemonEvent::Success { info } => r@ == "ok: "@ + info@,
            DaemonEvent::Error { message } => r@ == "error: "@ + message@,
            DaemonEvent::PeerConnected { peer_id } => r@ == "*** peer connected: "@ + peer_id@,
            DaemonEvent::PeerDisconnected { peer_id } => r@ == "*** peer disconnected: "@ + peer_id@,
            DaemonEvent::PeerMessage { peer_id, message, timestamp_secs } => if chrono_utc_valid(timestamp_secs) {
                r@.len() >= 9 && is_clock_text(r@.subrange(1, 9))
                    && r@ == message_line(r@.subrange(1, 9), peer_id@, message@)
            } else {
                r@ == message_line("<invalid-time>"@, peer_id@, message@)
            },
        },
{
    match event {
        DaemonEvent::MyId { endpoint_id } => format_myid_output(endpoint_id.as_str()),
        DaemonEvent::PeerList { peers } => {
            if peers.len() == 0 {
                String::from_str("no peers connected")
            } else {
                let mut lines = String::from_str("Connected peers: ");
                let mut i: usize = 0;
                while i < peers.len()
                    invariant
                        0 < peers@.len(),
                        i <= peers@.len(),
                        lines@ == peer_list_text(views(peers@).take(i as int)),
                    decreases peers@.len() - i,
                {
                    assert(views(peers@).take(i + 1).drop_last() =~= views(peers@).take(i as int));
                    lines.append("\n  - ");
                    lines.append(peers[i].as_str());
                    i = i + 1;
                }
                assert(views(peers@).take(i as int) =~= views(peers@));
                lines
            }
        },
        DaemonEvent::Success { info } => {
            let mut r = String::from_str("ok: ");
            r.append(info.as_str());
            r
        },
        DaemonEvent::Error { message } => {
            let mut r = String::from_str("error: ");
            r.append(message.as_str());
            r
        },
        DaemonEvent::PeerConnected { peer_id } => {
            let mut r = String::from_str("*** peer connected: ");
            r.append(peer_id.as_str());
            r
        },
        DaemonEvent::PeerDisconnected { peer_id } => {
            let mut r = String::from_str("*** peer disconnected: ");
            r.append(peer_id.as_str());
            r
        },
        DaemonEvent::PeerMessage { peer_id, message, timestamp_secs } => {
            let t = format_timestamp(timestamp_secs);
            let mut r = String::from_str("[");
            r.append(t.as_str());
            r.append("] <");
            r.append(peer_id.as_str());
            r.append("> ");
            r.append(message.as_str());
            assert(r@ == message_line(t@, peer_id@, message@));
            proof {
                reveal_strlit("[");
                if chrono_utc_valid(timestamp_secs) {
                    assert(r@.subrange(1, 9) =~= t@);
                }
            }
            r
        },
    }
}

/// What the line editor handed over.
pub enum ReplInput {
    /// A line the user entered.
    Line(String),
    /// The user pressed Ctrl+C.
    Interrupted,
    /// The user pressed Ctrl+D.
    Eof,
    /// The line editor failed, with this message.
    Failed(String),
}

/// What the interactive mode does next.
#[derive(Debug)]
pub enum LogicOut {
    /// Show this text.
    Print(String),
    /// Wait for the next line.
    Continue,
    /// Show this text and leave.
    Quit { message: String },
}

/// The step after the line editor handed over its input.
#[derive(Debug)]
pub enum InputStep {
    /// Done with this input.
    Done(Result<LogicOut, Error>),
    /// Record this trimmed line in the history and parse it as a command.
    Parse(String),
}

/// The text shown on Ctrl+C.
pub open spec fn interrupt_text() -> Seq<char> {
    "\nUse `quit` to exit interactive mode"@
}

/// The step that an input of the line editor calls for: blank lines are
/// skipped, others are parsed; Ctrl+C only reminds how to leave, Ctrl+D leaves.
pub fn on_input(input: ReplInput) -> (r: InputStep)
    ensures
        match input {
            ReplInput::Line(raw) => if trim(raw@).len() == 0 {
                r matches InputStep::Done(Ok(LogicOut::Continue))
            } else {
                r is Parse && r->Parse_0@ == trim(raw@)
            },
            ReplInput::Interrupted => r is Done && r->Done_0 is Ok
                && r->Done_0.unwrap() is Print && r->Done_0.unwrap()->Print_0@ == interrupt_text(),
            ReplInput::Eof => r is Done && r->Done_0 is Ok && r->Done_0.unwrap() is Quit
                && r->Done_0.unwrap()->message@ == "EOF received, quitting interactive mode..."@,
            ReplInput::Failed(m) => r is Done && r->Done_0 is Err
                && r->Done_0.unwrap_err().kind == ErrorKind::Other
                && r->Done_0.unwrap_err().payload == Some(m),
        },
{
    match input {
        ReplInput::Line(raw) => {
            let cs = chars_of(raw.as_str());
            let t = trim_chars(cs.as_slice());
            if t.len() == 0 {
                InputStep::Done(Ok(LogicOut::Continue))
            } else {
                InputStep::Parse(string_of(t.as_slice()))
            }
        },
        ReplInput::Interrupted => InputStep::Done(
            Ok(LogicOut::Print(String::from_str("\nUse `quit` to exit interactive mode"))),
        ),
        ReplInput::Eof => InputStep::Done(
            Ok(LogicOut::Quit { message: String::from_str("EOF received, quitting interactive mode...") }),
        ),
        ReplInput::Failed(m) => InputStep::Done(Err(Error::other(m))),
    }
}

/// The step after a line was parsed.
#[derive(Debug)]
pub enum ParsedStep {
    /// Do this.
    Out(LogicOut),
    /// Send this request to the daemon, then wait for the next line.
    Send(ClientRequest),
}

/// The step that a parsed line calls for: `quit` leaves, any other command
/// goes to the daemon, and a line that is no command shows why.
pub fn on_parsed(parsed: Result<InteractiveCommand, Error>) -> (r: ParsedStep)
    ensures
        match parsed {
            Ok(InteractiveCommand::Quit) => r is Out && r->Out_0 is Quit
                && r->Out_0->message@ == "Quitting interactive mode..."@,
            Ok(command) => r is Send && r->Send_0 == ClientRequest::from_spec(command),
            Err(e) => r is Out && r->Out_0 is Print && r->Out_0->Print_0@ == error_text(e),
        },
{
    match parsed {
        Ok(InteractiveCommand::Quit) => ParsedStep::Out(
            LogicOut::Quit { message: String::from_str("Quitting interactive mode...") },
        ),
        Ok(command) => ParsedStep::Send(ClientRequest::from(command)),
        Err(e) => ParsedStep::Out(LogicOut::Print(e.message())),
    }
}

/// The error the interactive mode ends with when its session with the
/// daemon fails: the daemon closing the connection is kept as it is, any
/// other failure becomes an error of no particular kind with its message.
pub fn session_failure(err: Error) -> (r: Error)
    ensures
        err.kind == ErrorKind::DaemonAbortedConnection ==> r == err,
        err.kind != ErrorKind::DaemonAbortedConnection ==> (r.kind == ErrorKind::Other
            && r.payload is Some && r.payload.unwrap()@ == error_text(err)),
{
    if err.kind() == ErrorKind::DaemonAbortedConnection {
        err
    } else {
        Error::other(err.message())
    }
}

/// A component the interactive mode needs before it starts.
#[derive(Clone, Copy, Debug, PartialEq, Eq, Structural)]
pub enum ReplComponent {
    /// The terminal line editor.
    Editor,
    /// The session with the daemon.
    Session,
}

/// What setting up a component was to do.
pub open spec fn component_text(c: ReplComponent) -> Seq<char> {
    match c {
        ReplComponent::Editor => "failed to initialize repl engine: "@,
        ReplComponent::Session => "failed to create session with daemon: "@,
    }
}

/// The error with which the interactive mode fails to start, when setting
/// up `component` failed as `cause` says.
pub fn init_failure(component: ReplComponent, cause: &str) -> (r: Error)
    ensures
        r.kind == ErrorKind::Other,
        r.payload is Some && r.payload.unwrap()@ == component_text(component) + cause@,
{
    let mut m = match component {
        ReplComponent::Editor => String::from_str("failed to initialize repl engine: "),
        ReplComponent::Session => String::from_str("failed to create session with daemon: "),
    };
    m.append(cause);
    Error::other(m)
}

} // verus!
