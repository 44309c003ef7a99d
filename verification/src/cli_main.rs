//! The line-oriented chat client: what each line typed in its interactive
//! mode asks for, the command line's message words, and how often it tries
//! to reach the daemon.

use vstd::prelude::*;
use crate::message::{err, line_view, out, response_lines, response_showable, response_text, Command, IpcMessage, OutputLine};
use crate::number::i32_text;
use crate::text::{chars_of, join_spaced, join_spaced_from, same_chars, split_whitespace, string_of, trim, trim_chars, views, words};

verus! {

/// How many times the client tries to connect to the daemon.
pub const CONNECT_ATTEMPTS: u32 = 5;

/// Milliseconds between two attempts to connect.
pub const RETRY_DELAY_MS: u64 = 200;

/// Milliseconds the client waits for the daemon's answer to `quit`.
pub const QUIT_GRACE_MS: u64 = 100;

/// What a line typed in the interactive mode asks for.
#[derive(Debug)]
pub enum LineAction {
    /// Nothing: the line is blank.
    Skip,
    /// Show these lines and send nothing.
    Print(Vec<String>),
    /// Send this command; with `quit`, leave once it is sent.
    Send { command: Command, quit: bool },
}

/// The lines shown by `help`.
pub open spec fn help_lines() -> Seq<Seq<char>> {
    seq![
        "Commands:"@,
        "  help                          - Show this help"@,
        "  status                        - Show daemon status"@,
        "  peers                         - List connected peers"@,
        "  join <endpoint>               - Connect to a peer"@,
        "  send <peer_id> <message>      - Send message to peer"@,
        "  quit                          - Disconnect and exit"@,
    ]
}

/// Whether `r` is what the line `input` asks for.
pub open spec fn line_action_fits(input: Seq<char>, r: LineAction) -> bool {
    let ws = words(trim(input));
    if ws.len() == 0 {
        r is Skip
    } else if ws[0] == "help"@ {
        r is Print && views(r->Print_0@) == help_lines()
    } else if ws[0] == "status"@ {
        r is Send && r->command is Status && !r->quit
    } else if ws[0] == "peers"@ {
        r is Send && r->command is ListPeers && !r->quit
    } else if ws[0] == "join"@ {
        if ws.len() < 2 {
            r is Print && views(r->Print_0@) == seq!["Usage: join <endpoint>"@]
        } else {
            r is Send && r->command is Connect && r->command->endpoint@ == ws[1] && !r->quit
        }
    } else if ws[0] == "send"@ {
        if ws.len() < 3 {
            r is Print && views(r->Print_0@) == seq!["Usage: send <peer_id> <message>"@]
        } else {
            r is Send && r->command is Send && r->command->peer_id@ == ws[1]
                && r->command->content@ == join_spaced(ws.skip(2)) && !r->quit
        }
    } else if ws[0] == "quit"@ {
        r is Send && r->command is Quit && r->quit
    } else {
        r is Print && views(r->Print_0@) == seq![
            "Unknown command: "@ + ws[0] + ". Type 'help' for available commands."@,
        ]
    }
}

/// The command words of the interactive line client are all different.
proof fn lemma_command_words_differ()
    ensures
        "help"@ != "status"@,
        "help"@ != "peers"@,
        "help"@ != "join"@,
        "help"@ != "send"@,
        "help"@ != "quit"@,
        "status"@ != "peers"@,
        "status"@ != "join"@,
        "status"@ != "send"@,
        "status"@ != "quit"@,
        "peers"@ != "join"@,
        "peers"@ != "send"@,
        "peers"@ != "quit"@,
        "join"@ != "send"@,
        "join"@ != "quit"@,
        "send"@ != "quit"@,
{
    reveal_strlit("help");
    reveal_strlit("status");
    reveal_strlit("peers");
    reveal_strlit("join");
    reveal_strlit("send");
    reveal_strlit("quit");
    assert("help"@ != "status"@) by { assert("help"@[0] != "status"@[0]); }
    assert("help"@ != "peers"@) by { assert("help"@[0] != "peers"@[0]); }
    assert("help"@ != "join"@) by { assert("help"@[0] != "join"@[0]); }
    assert("help"@ != "send"@) by { assert("help"@[0] != "send"@[0]); }
    assert("help"@ != "quit"@) by { assert("help"@[0] != "quit"@[0]); }
    assert("status"@ != "peers"@) by { assert("status"@[0] != "peers"@[0]); }
    assert("status"@ != "join"@) by { assert("status"@[0] != "join"@[0]); }
    assert("status"@ != "send"@) by { assert("status"@[1] != "send"@[1]); }
    assert("status"@ != "quit"@) by { assert("status"@[0] != "quit"@[0]); }
    assert("peers"@ != "join"@) by { assert("peers"@[0] != "join"@[0]); }
    assert("peers"@ != "send"@) by { assert("peers"@[0] != "send"@[0]); }
    assert("peers"@ != "quit"@) by { assert("peers"@[0] != "quit"@[0]); }
    assert("join"@ != "send"@) by { assert("join"@[0] != "send"@[0]); }
    assert("join"@ != "quit"@) by { assert("join"@[0] != "quit"@[0]); }
    assert("send"@ != "quit"@) by { assert("send"@[0] != "quit"@[0]); }
}

/// Law: `join` connects to the endpoint it names. A line whose words are
/// `join` and one endpoint sends a connect command for exactly that
/// endpoint, and stays in the session; the usage is shown only for a bare
/// `join`.
pub proof fn lemma_join_connects(input: Seq<char>, e: Seq<char>, r: LineAction)
    requires
        line_action_fits(input, r),
    ensures
        words(trim(input)) == seq!["join"@, e] ==> (r is Send && r->command is Connect
            && r->command->endpoint@ == e && !r->quit),
        words(trim(input)) == seq!["join"@] ==> (r is Print
            && views(r->Print_0@) == seq!["Usage: join <endpoint>"@]),
{
    lemma_command_words_differ();
}

/// Law: `send` sends the words after the peer id, joined with single
/// spaces, to that peer; the usage is shown only when no word of message
/// follows the peer id.
pub proof fn lemma_send_sends_the_message(input: Seq<char>, p: Seq<char>, msg: Seq<Seq<char>>, r: LineAction)
    requires
        line_action_fits(input, r),
        words(trim(input)) == seq!["send"@, p] + msg,
    ensures
        msg.len() > 0 ==> (r is Send && r->command is Send && r->command->peer_id@ == p
            && r->command->content@ == join_spaced(msg) && !r->quit),
        msg.len() == 0 ==> (r is Print && views(r->Print_0@) == seq!["Usage: send <peer_id> <message>"@]),
{
    lemma_command_words_differ();
    let ws = words(trim(input));
    assert(ws[0] == "send"@);
    assert(ws[1] == p);
    assert(ws.skip(2) =~= msg);
    assert(ws.len() == msg.len() + 2);
}

/// Law: `status` and `peers` ask the daemon for its status and its peers,
/// whatever follows them; `help` sends nothing and lists the seven help
/// lines; a line whose first word is no command sends nothing and names
/// that word.
pub proof fn lemma_other_commands(input: Seq<char>, w: Seq<char>, r: LineAction)
    requires
        line_action_fits(input, r),
        words(trim(input)).len() > 0,
        words(trim(input))[0] == w,
    ensures
        w == "status"@ ==> (r is Send && r->command is Status && !r->quit),
        w == "peers"@ ==> (r is Send && r->command is ListPeers && !r->quit),
        w == "help"@ ==> (r is Print && r->Print_0@.len() == 7 && r->Print_0@[0]@ == "Commands:"@),
        (w != "help"@ && w != "status"@ && w != "peers"@ && w != "join"@ && w != "send"@ && w != "quit"@)
            ==> (r is Print && views(r->Print_0@) == seq!["Unknown command: "@ + w + ". Type 'help' for available commands."@]),
{
    lemma_command_words_differ();
    if w == "help"@ {
        assert(views(r->Print_0@).len() == r->Print_0@.len());
        assert(views(r->Print_0@)[0] == r->Print_0@[0]@);
    }
}

/// Law: only `quit` leaves, and it sends the quit command first.
pub proof fn lemma_only_quit_leaves(input: Seq<char>, r: LineAction)
    requires
        line_action_fits(input, r),
    ensures
        (r is Send && r->quit) <==> (words(trim(input)).len() > 0 && words(trim(input))[0] == "quit"@),
        r is Send && r->quit ==> r->command is Quit,
{
    lemma_command_words_differ();
}

fn is_word(w: &String, lit: &str) -> (r: bool)
    ensures
        r == (w@ == lit@),
{
    let a = chars_of(w.as_str());
    let b = chars_of(lit);
    same_chars(a.as_slice(), b.as_slice())
}

fn one_line(line: String) -> (r: LineAction)
    ensures
        r is Print && views(r->Print_0@) == seq![line@],
{
    let ghost l = line@;
    let mut v: Vec<String> = Vec::new();
    v.push(line);
    assert(views(v@) =~= seq![l]);
    LineAction::Print(v)
}

fn help() -> (r: LineAction)
    ensures
        r is Print && views(r->Print_0@) == help_lines(),
{
    let mut v: Vec<String> = Vec::new();
    v.push(String::from_str("Commands:"));
    v.push(String::from_str("  help                          - Show this help"));
    v.push(String::from_str("  status                        - Show daemon status"));
    v.push(String::from_str("  peers                         - List connected peers"));
    v.push(String::from_str("  join <endpoint>               - Connect to a peer"));
    v.push(String::from_str("  send <peer_id> <message>      - Send message to peer"));
    v.push(String::from_str("  quit                          - Disconnect and exit"));
    assert(views(v@) =~= help_lines());
    LineAction::Print(v)
}

/// What a line typed in the interactive mode asks for: its first word names
/// the command, the others are its arguments.
pub fn interpret_line(input: &str) -> (r: LineAction)
    ensures
        line_action_fits(input@, r),
{
    let cs = chars_of(input);
    let t = trim_chars(cs.as_slice());
    let trimmed = string_of(t.as_slice());
    let parts = split_whitespace(trimmed.as_str());
    if parts.len() == 0 {
        return LineAction::Skip;
    }
    assert(views(parts@)[0] == parts@[0]@);
    if is_word(&parts[0], "help") {
        help()
    } else if is_word(&parts[0], "status") {
        LineAction::Send { command: Command::Status, quit: false }
    } else if is_word(&parts[0], "peers") {
        LineAction::Send { command: Command::ListPeers, quit: false }
    } else if is_word(&parts[0], "join") {
        if parts.len() < 2 {
            one_line(String::from_str("Usage: join <endpoint>"))
        } else {
            assert(views(parts@)[1] == parts@[1]@);
            LineAction::Send { command: Command::Connect { endpoint: parts[1].clone() }, quit: false }
        }
    } else if is_word(&parts[0], "send") {
        if parts.len() < 3 {
            one_line(String::from_str("Usage: send <peer_id> <message>"))
        } else {
            assert(views(parts@)[1] == parts@[1]@);
            let content = join_spaced_from(&parts, 2);
            LineAction::Send { command: Command::Send { peer_id: parts[1].clone(), content }, quit: false }
        }
    } else if is_word(&parts[0], "quit") {
        LineAction::Send { command: Command::Quit, quit: true }
    } else {
        let mut m = String::from_str("Unknown command: ");
        m.append(parts[0].as_str());
        m.append(". Type 'help' for available commands.");
        one_line(m)
    }
}

/// The words of a `send` command line's message, joined with single spaces.
pub fn message_content(words: &Vec<String>) -> (r: String)
    ensures
        r@ == join_spaced(views(words@)),
{
    assert(views(words@).skip(0) =~= views(words@));
    join_spaced_from(words, 0)
}

/// After the failed attempt number `attempt` (counted from 1) to connect:
/// the notice to show before the next attempt, or `None` when that was the
/// last one and the failure stands.
pub fn after_failed_attempt(attempt: u32) -> (r: Option<String>)
    requires
        1 <= attempt <= CONNECT_ATTEMPTS,
    ensures
        attempt < CONNECT_ATTEMPTS <==> r is Some,
        r matches Some(m) ==> m@ == "Connection attempt "@ + crate::number::int_text(attempt as int)
            + " failed, retrying..."@,
{
    if attempt < CONNECT_ATTEMPTS {
        let mut m = String::from_str("Connection attempt ");
        let n = i32_text(attempt as i32);
        m.append(n.as_str());
        m.append(" failed, retrying...");
        Some(m)
    } else {
        None
    }
}

/// What came of waiting for the daemon's answer to a single command.
pub enum Reply {
    /// The daemon closed the connection.
    Closed,
    /// The daemon sent this message.
    Received(IpcMessage),
    /// What the daemon sent is no message; the parser's complaint.
    Unparsable(String),
    /// Reading failed; the system's message.
    ReadFailed(String),
}

/// The lines shown for the daemon's answer to a single command. A message
/// whose time cannot be shown is not handled.
pub fn reply_lines(reply: Reply) -> (r: Vec<OutputLine>)
    requires
        reply matches Reply::Received(IpcMessage::Response(resp)) ==> response_showable(resp),
    ensures
        r@.map_values(|l: OutputLine| line_view(l)) == match reply {
            Reply::Closed => seq![out("Connection closed by daemon"@)],
            Reply::Received(IpcMessage::Response(resp)) => response_text(resp),
            Reply::Received(IpcMessage::Command(_)) => seq![err("Unexpected Command message from daemon"@)],
            Reply::Unparsable(e) => seq![err("Failed to parse response: "@ + e@)],
            Reply::ReadFailed(e) => seq![err("Failed to read response: "@ + e@)],
        },
{
    let (to_stderr, text) = match reply {
        Reply::Closed => (false, String::from_str("Connection closed by daemon")),
        Reply::Received(IpcMessage::Response(resp)) => {
            return response_lines(&resp);
        },
        Reply::Received(IpcMessage::Command(_)) => (true, String::from_str("Unexpected Command message from daemon")),
        Reply::Unparsable(e) => {
            let mut t = String::from_str("Failed to parse response: ");
            t.append(e.as_str());
            (true, t)
        },
        Reply::ReadFailed(e) => {
            let mut t = String::from_str("Failed to read response: ");
            t.append(e.as_str());
            (true, t)
        },
    };
    let mut v: Vec<OutputLine> = Vec::new();
    v.push(OutputLine { to_stderr, text });
    assert(v@.map_values(|l: OutputLine| line_view(l)) =~= seq![(to_stderr, v@[0].text@)]);
    v
}

/// The lines shown when the interactive mode starts, before and after
/// reaching the daemon.
pub const CONNECTING_LINE: &'static str = "Connecting to daemon...";

/// The line shown once the daemon is reached.
pub const CONNECTED_LINE: &'static str = "Connected to daemon. Commands: help, join <endpoint>, send <peer_id> <message>, peers, status, quit";

} // verus!
