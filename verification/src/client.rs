//! The client: the commands a user gives on the command line, and what each
//! of them prints and ends with.

pub mod daemon_control;
pub mod daemon_session;
pub mod error;
pub mod repl;

use vstd::prelude::*;
use crate::cli_interface::{invalid_log_level_text, is_valid_log_level, parse_log_level, ClientCmd, Command, DaemonCmd, InfoCmd};
use crate::client::daemon_control::{is_other_error, is_status, State};
use crate::client::error::{error_text, Error, ErrorKind};
use crate::schemas::{ClientRequest, DaemonEvent};
use crate::text::views;
use crate::ticket::{is_ticket_json, parse_ticket, ticket_id_text};

verus! {

/// Log level of the client when none is given.
pub const DEFAULT_LOG_LEVEL: &'static str = "info";

/// The log level to use: the one given, or the default when it is empty.
pub fn log_level_or_default(cli_log_level: String) -> (r: String)
    ensures
        r@ == (if cli_log_level@.len() == 0 { DEFAULT_LOG_LEVEL@ } else { cli_log_level@ }),
{
    if crate::text::chars_of(cli_log_level.as_str()).len() == 0 {
        String::from_str(DEFAULT_LOG_LEVEL)
    } else {
        cli_log_level
    }
}

/// What the client does for a command.
#[derive(Debug)]
pub enum Action {
    /// Control the daemon.
    Daemon(DaemonCmd),
    /// Run the interactive mode.
    Interactive,
    /// Ask the daemon for information.
    Info(InfoCmd),
}

/// Whether a command is one the client carries out (the placeholder is not).
pub open spec fn is_runnable(cmd: Command) -> bool {
    !(cmd is Client && cmd->Client_subcmd is Placeholder)
}

/// What the client does for a command.
pub fn action(cmd: Command) -> (r: Action)
    requires
        is_runnable(cmd),
    ensures
        match cmd {
            Command::Daemon { subcmd } => r is Daemon && r->Daemon_0 == subcmd,
            Command::Client { .. } => r is Interactive,
            Command::Info(i) => r is Info && r->Info_0 == i,
        },
{
    match cmd {
        Command::Daemon { subcmd } => Action::Daemon(subcmd),
        Command::Client { subcmd } => client(&subcmd),
        Command::Info(i) => Action::Info(i),
    }
}

/// What the client does for a `client` command: the interactive mode.
pub fn client(cmd: &ClientCmd) -> (r: Action)
    requires
        *cmd is Interactive,
    ensures
        r is Interactive,
{
    Action::Interactive
}

/// The log level `daemon start` hands the daemon: the one given with the
/// command, else the one the environment sets (which must be a valid
/// level), else the daemon's default.
pub fn start_log_level(given: Option<String>, from_env: Option<String>) -> (r: Result<String, String>)
    ensures
        match given {
            Some(l) => r is Ok && r.unwrap()@ == l@,
            None => match from_env {
                Some(v) => if is_valid_log_level(v@) {
                    r is Ok && r.unwrap()@ == v@
                } else {
                    r is Err && r.unwrap_err()@ == invalid_log_level_text(v@)
                },
                None => r is Ok && r.unwrap()@ == crate::daemon::DEFAULT_LOG_LEVEL@,
            },
        },
{
    match given {
        Some(l) => Ok(l),
        None => match from_env {
            Some(v) => parse_log_level(v.as_str()),
            None => Ok(String::from_str(crate::daemon::DEFAULT_LOG_LEVEL)),
        },
    }
}

/// What a command prints on standard output and on standard error, line by
/// line, and how it ends.
#[derive(Debug)]
pub struct Report {
    pub out: Vec<String>,
    pub err: Vec<String>,
    pub result: Result<(), Error>,
}

/// A report of one line on standard output, ending well.
pub open spec fn says(r: Report, line: Seq<char>) -> bool {
    views(r.out@) == seq![line] && r.err@.len() == 0 && r.result is Ok
}

/// A report of one line on standard error, ending with a failure.
pub open spec fn fails_with(r: Report, line: Seq<char>) -> bool {
    r.out@.len() == 0 && views(r.err@) == seq![line] && r.result is Err
}

fn say(line: String) -> (r: Report)
    ensures
        says(r, line@),
{
    let ghost l = line@;
    let mut out: Vec<String> = Vec::new();
    out.push(line);
    assert(views(out@) =~= seq![l]);
    Report { out, err: Vec::new(), result: Ok(()) }
}

fn fail(line: String, e: Error) -> (r: Report)
    ensures
        fails_with(r, line@),
        r.result == Err::<(), Error>(e),
{
    let ghost l = line@;
    let mut err: Vec<String> = Vec::new();
    err.push(line);
    assert(views(err@) =~= seq![l]);
    Report { out: Vec::new(), err, result: Err(e) }
}

fn prefixed(head: &str, e: &Error) -> (r: String)
    ensures
        r@ == head@ + error_text(*e),
{
    let mut r = String::from_str(head);
    let m = e.message();
    r.append(m.as_str());
    r
}

fn concat(head: &str, e: &Error, tail: &str) -> (r: String)
    ensures
        r@ == head@ + error_text(*e) + tail@,
{
    let mut r = String::from_str(head);
    let m = e.message();
    r.append(m.as_str());
    r.append(tail);
    r
}

/// What `daemon start` prints, from the outcome of starting the daemon.
pub fn start_report(outcome: Result<State, Error>) -> (r: Report)
    requires
        outcome matches Ok(s) ==> (s is ProcessCreated || s is Running),
    ensures
        match outcome {
            Ok(s) => if s is ProcessCreated {
                says(r, "Daemon started"@)
            } else {
                says(r, "Daemon is already running"@)
            },
            Err(e) => fails_with(r, "Failed to create daemon: "@ + error_text(e))
                && r.result == Err::<(), Error>(e),
        },
{
    match outcome {
        Ok(State::ProcessCreated) => say(String::from_str("Daemon started")),
        Ok(_) => say(String::from_str("Daemon is already running")),
        Err(e) => {
            let line = prefixed("Failed to create daemon: ", &e);
            fail(line, e)
        },
    }
}

/// What `daemon stop` prints, from the outcome of stopping the daemon.
pub fn stop_report(outcome: Result<State, Error>) -> (r: Report)
    requires
        outcome matches Ok(s) ==> (s is StopRequested || s is NotRunning),
    ensures
        match outcome {
            Ok(s) => if s is StopRequested {
                says(r, "Daemon stop requested. To verify that daemon is stopped, check its status with the corresponding command"@)
            } else {
                says(r, "Daemon is already not running"@)
            },
            Err(e) => fails_with(r, "Failed to stop daemon: "@ + error_text(e))
                && r.result == Err::<(), Error>(e),
        },
{
    match outcome {
        Ok(State::StopRequested) => say(
            String::from_str("Daemon stop requested. To verify that daemon is stopped, check its status with the corresponding command"),
        ),
        Ok(_) => say(String::from_str("Daemon is already not running")),
        Err(e) => {
            let line = prefixed("Failed to stop daemon: ", &e);
            fail(line, e)
        },
    }
}

/// What `daemon status` prints, from the daemon's state.
pub fn status_report(state: State) -> (r: Report)
    requires
        is_status(state),
    ensures
        match state {
            State::Running { .. } => says(r, "Daemon is running"@),
            State::NotRunning => says(r, "Daemon is not running"@),
            State::StateUnknown(e) => fails_with(r, "Failed to obtain daemon state: "@ + error_text(e) + ". Try stop the daemon"@)
                && r.result == Err::<(), Error>(e),
            State::Corrupted(e) => fails_with(r, "Daemon is corrupted: "@ + error_text(e) + ". Try stop the daemon"@)
                && r.result == Err::<(), Error>(e),
            _ => false,
        },
{
    match state {
        State::Running { .. } => say(String::from_str("Daemon is running")),
        State::StateUnknown(e) => {
            let line = concat("Failed to obtain daemon state: ", &e, ". Try stop the daemon");
            fail(line, e)
        },
        State::Corrupted(e) => {
            let line = concat("Daemon is corrupted: ", &e, ". Try stop the daemon");
            fail(line, e)
        },
        _ => say(String::from_str("Daemon is not running")),
    }
}

/// Whether the interactive mode and the info commands may go on, from the
/// daemon's state: only a running daemon lets them, silently.
pub fn readiness_report(state: State) -> (r: Report)
    requires
        is_status(state),
    ensures
        match state {
            State::Running { .. } => r.out@.len() == 0 && r.err@.len() == 0 && r.result is Ok,
            State::NotRunning => fails_with(r, "Daemon is not running. Start daemon first"@)
                && is_other_error(r.result.unwrap_err(), "daemon is not running"@),
            State::Corrupted(e) => fails_with(r, "Cannot proceed: daemon state is corrupted: "@ + error_text(e))
                && r.result == Err::<(), Error>(e),
            State::StateUnknown(e) => fails_with(r, "Cannot proceed: daemon state is unknown: "@ + error_text(e))
                && r.result == Err::<(), Error>(e),
            _ => false,
        },
{
    match state {
        State::Running { .. } => Report { out: Vec::new(), err: Vec::new(), result: Ok(()) },
        State::Corrupted(e) => {
            let line = prefixed("Cannot proceed: daemon state is corrupted: ", &e);
            fail(line, e)
        },
        State::StateUnknown(e) => {
            let line = prefixed("Cannot proceed: daemon state is unknown: ", &e);
            fail(line, e)
        },
        _ => fail(
            String::from_str("Daemon is not running. Start daemon first"),
            Error::other(String::from_str("daemon is not running")),
        ),
    }
}

/// The line printed when the interactive mode ends with `err`.
pub open spec fn repl_failure_text(err: Error) -> Seq<char> {
    if err.kind == ErrorKind::DaemonAbortedConnection {
        "Daemon closed connection: "@ + error_text(err)
    } else if err.kind == ErrorKind::DaemonConnectionFailed {
        "Failed to connect to daemon: "@ + error_text(err)
    } else if err.kind == ErrorKind::ReplInitFailed {
        "Interactive mode failed to initialize: "@ + error_text(err)
    } else {
        "Interactive mode failed: "@ + error_text(err)
    }
}

/// The line printed on standard error when the interactive mode ends with `err`.
pub fn repl_failure_line(err: &Error) -> (r: String)
    ensures
        r@ == repl_failure_text(*err),
{
    if err.kind() == ErrorKind::DaemonAbortedConnection {
        prefixed("Daemon closed connection: ", err)
    } else if err.kind() == ErrorKind::DaemonConnectionFailed {
        prefixed("Failed to connect to daemon: ", err)
    } else if err.kind() == ErrorKind::ReplInitFailed {
        prefixed("Interactive mode failed to initialize: ", err)
    } else {
        prefixed("Interactive mode failed: ", err)
    }
}

/// The request an info command sends to the daemon.
pub fn info_request(cmd: &InfoCmd) -> (r: ClientRequest)
    ensures
        match *cmd {
            InfoCmd::List => r is List,
            InfoCmd::Myid => r is MyID,
        },
{
    match cmd {
        InfoCmd::List => ClientRequest::List,
        InfoCmd::Myid => ClientRequest::MyID,
    }
}

/// A failure on the way to the daemon during an info command: the daemon
/// closing the connection becomes an error of `kind`, anything else an
/// error of no particular kind; both keep the failure's message.
pub fn escalated(err: Error, kind: ErrorKind) -> (r: Error)
    ensures
        r.kind == (if err.kind == ErrorKind::DaemonAbortedConnection { kind } else { ErrorKind::Other }),
        r.payload matches Some(p) && p@ == error_text(err),
{
    if err.kind() == ErrorKind::DaemonAbortedConnection {
        Error::new(kind, err.message())
    } else {
        Error::other(err.message())
    }
}

/// The text shown for this node's ticket: its endpoint id (or a marker when
/// the ticket cannot be read), the ticket, and a hint.
pub open spec fn myid_text(ticket: Seq<char>) -> Seq<char> {
    let id = if is_ticket_json(ticket) { ticket_id_text(ticket) } else { "<failed-to-parse-endpoint-id>"@ };
    "my endpoint ID: "@ + id + "\nmy ticket: "@ + ticket + "\ntip: connect using either endpoint id or full ticket"@
}

/// The text shown for this node's ticket.
pub fn format_myid_output(ticket: &str) -> (r: String)
    ensures
        r@ == myid_text(ticket@),
{
    let id = match parse_ticket(ticket) {
        Some((_, id)) => id,
        None => String::from_str("<failed-to-parse-endpoint-id>"),
    };
    let mut r = String::from_str("my endpoint ID: ");
    r.append(id.as_str());
    r.append("\nmy ticket: ");
    r.append(ticket);
    r.append("\ntip: connect using either endpoint id or full ticket");
    r
}

/// What an info command prints for the daemon's answer; `None` for an
/// answer that no info command expects.
pub fn info_report(event: DaemonEvent) -> (r: Option<Report>)
    ensures
        match event {
            DaemonEvent::MyId { endpoint_id } => r is Some && says(r.unwrap(), myid_text(endpoint_id@)),
            DaemonEvent::PeerList { peers } => r is Some && if peers@.len() == 0 {
                says(r.unwrap(), "no peers connected"@)
            } else {
                views(r.unwrap().out@) == views(peers@) && r.unwrap().err@.len() == 0 && r.unwrap().result is Ok
            },
            DaemonEvent::Error { message } => r is Some && fails_with(r.unwrap(), "Daemon error: "@ + message@)
                && is_other_error(r.unwrap().result.unwrap_err(), message@),
            _ => r is None,
        },
{
    match event {
        DaemonEvent::MyId { endpoint_id } => Some(say(format_myid_output(endpoint_id.as_str()))),
        DaemonEvent::PeerList { peers } => {
            if peers.len() == 0 {
                Some(say(String::from_str("no peers connected")))
            } else {
                Some(Report { out: peers, err: Vec::new(), result: Ok(()) })
            }
        },
        DaemonEvent::Error { message } => {
            let mut line = String::from_str("Daemon error: ");
            line.append(message.as_str());
            Some(fail(line, Error::other(message)))
        },
        _ => None,
    }
}

} // verus!
