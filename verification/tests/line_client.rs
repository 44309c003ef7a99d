use p2p_chat::cli_interface::parse_log_level;
use p2p_chat::cli::repl::{repl_step, ReplStep};
use p2p_chat::cli::{response_line, route, status_line, Route};
use p2p_chat::cli_main::{after_failed_attempt, interpret_line, message_content, reply_lines, LineAction, Reply};
use p2p_chat::cli_schema::{Cli, Command, DaemonCmd, InteractiveCommand, PeerCmd};
use p2p_chat::message::{Command as IpcCommand, IpcMessage, OutputLine, PeerInfo, Response};

fn printed(a: LineAction) -> Vec<String> {
    match a {
        LineAction::Print(v) => v,
        other => panic!("unexpected {other:?}"),
    }
}

#[test]
fn blank_line_does_nothing() {
    assert!(matches!(interpret_line(""), LineAction::Skip));
    assert!(matches!(interpret_line("  \n"), LineAction::Skip));
}

#[test]
fn help_lists_the_commands() {
    let v = printed(interpret_line("help"));
    assert_eq!(v.len(), 7);
    assert_eq!(v[0], "Commands:");
    assert_eq!(v[5], "  send <peer_id> <message>      - Send message to peer");
}

#[test]
fn simple_commands() {
    assert!(matches!(interpret_line("status"), LineAction::Send { command: IpcCommand::Status, quit: false }));
    assert!(matches!(interpret_line(" peers "), LineAction::Send { command: IpcCommand::ListPeers, quit: false }));
    assert!(matches!(interpret_line("quit"), LineAction::Send { command: IpcCommand::Quit, quit: true }));
}

#[test]
fn join_needs_an_endpoint() {
    assert_eq!(printed(interpret_line("join")), vec!["Usage: join <endpoint>"]);
    match interpret_line("join  abc extra") {
        LineAction::Send { command: IpcCommand::Connect { endpoint }, quit: false } => assert_eq!(endpoint, "abc"),
        other => panic!("unexpected {other:?}"),
    }
}

#[test]
fn send_joins_the_message_words() {
    assert_eq!(printed(interpret_line("send p1")), vec!["Usage: send <peer_id> <message>"]);
    match interpret_line("send p1  hello   big world") {
        LineAction::Send { command: IpcCommand::Send { peer_id, content }, quit: false } => {
            assert_eq!((peer_id.as_str(), content.as_str()), ("p1", "hello big world"))
        }
        other => panic!("unexpected {other:?}"),
    }
}

#[test]
fn unknown_command() {
    assert_eq!(
        printed(interpret_line("dance now")),
        vec!["Unknown command: dance. Type 'help' for available commands."]
    );
    assert_eq!(
        printed(interpret_line("HELP")),
        vec!["Unknown command: HELP. Type 'help' for available commands."]
    );
}

#[test]
fn message_words_and_retries() {
    assert_eq!(message_content(&vec!["a".to_string(), "b".to_string()]), "a b");
    assert_eq!(message_content(&vec![]), "");
    assert_eq!(after_failed_attempt(1).unwrap(), "Connection attempt 1 failed, retrying...");
    assert_eq!(after_failed_attempt(4).unwrap(), "Connection attempt 4 failed, retrying...");
    assert!(after_failed_attempt(5).is_none());
}

fn texts(v: Vec<OutputLine>) -> Vec<(bool, String)> {
    v.into_iter().map(|l| (l.to_stderr, l.text)).collect()
}

#[test]
fn replies_to_single_commands() {
    assert_eq!(texts(reply_lines(Reply::Closed)), vec![(false, "Connection closed by daemon".to_string())]);
    assert_eq!(
        texts(reply_lines(Reply::Received(IpcMessage::Command(IpcCommand::Status)))),
        vec![(true, "Unexpected Command message from daemon".to_string())]
    );
    assert_eq!(
        texts(reply_lines(Reply::Unparsable("EOF while parsing".into()))),
        vec![(true, "Failed to parse response: EOF while parsing".to_string())]
    );
    assert_eq!(
        texts(reply_lines(Reply::ReadFailed("reset".into()))),
        vec![(true, "Failed to read response: reset".to_string())]
    );
    let peers = vec![PeerInfo { peer_id: "p".into(), endpoint: "e".into(), connected: true }];
    assert_eq!(
        texts(reply_lines(Reply::Received(IpcMessage::Response(Response::Peers(peers))))),
        vec![(false, "=== Connected Peers ===".to_string()), (false, "p - e".to_string())]
    );
}

#[test]
fn routes_of_the_peer_command_client() {
    let hidden = Cli { init_internal: true, command: None };
    assert!(matches!(route(hidden), Route::RunDaemon));
    let d = Cli { init_internal: false, command: Some(Command::Daemon { subcmd: DaemonCmd::Status }) };
    assert!(matches!(route(d), Route::DaemonControl(DaemonCmd::Status)));
    let i = Cli { init_internal: false, command: Some(Command::Interactive) };
    assert!(matches!(route(i), Route::NeedsDaemon(Command::Interactive)));
    assert_eq!(status_line(Some(12)), "Daemon is running with PID 12");
    assert_eq!(status_line(None), "Daemon is not running");
    assert_eq!(response_line("pong"), "Daemon response: pong");
    assert!(matches!(repl_step(InteractiveCommand::Quit), ReplStep::Quit));
    assert!(matches!(repl_step(InteractiveCommand::Peer(PeerCmd::List)), ReplStep::Peer(PeerCmd::List)));
}

#[test]
fn log_levels() {
    for l in ["error", "warn", "info", "debug"] {
        assert_eq!(parse_log_level(l).unwrap(), l);
    }
    assert_eq!(
        parse_log_level("trace").unwrap_err(),
        "invalid log level 'trace'. Expected one of: error, warn, info, debug"
    );
    assert!(parse_log_level("INFO").is_err());
    assert!(parse_log_level("").is_err());
}
