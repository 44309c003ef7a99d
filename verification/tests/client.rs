use p2p_chat::cli_interface::{ClientCmd, Command, DaemonCmd, InfoCmd};
use p2p_chat::client::daemon_control::{
    after_spawn, after_stop_signal, before_create, before_destroy, daemon_init_arg, is_process_alive, status,
    SignalOutcome, State,
};
use p2p_chat::client::daemon_session::from_socket_error;
use p2p_chat::client::error::{Error, ErrorKind};
use p2p_chat::client::{
    action, client, escalated, start_log_level, format_myid_output, info_report, info_request, log_level_or_default,
    readiness_report, repl_failure_line, start_report, status_report, stop_report, Action,
};
use p2p_chat::pid;
use p2p_chat::schemas::{ClientRequest, DaemonEvent};
use p2p_chat::socket;

fn pid_err(kind: pid::ErrorKind, msg: &str) -> pid::Error {
    pid::Error::new(kind, msg.to_string())
}

#[test]
fn live_daemon_with_socket_is_running() {
    let c = status(Ok(321), true, true);
    assert!(matches!(c.state, State::Running { pid: 321 }));
    assert!(!c.remove_pid_file && !c.remove_socket);
}

#[test]
fn live_daemon_without_socket_is_corrupted() {
    let c = status(Ok(321), true, false);
    match c.state {
        State::Corrupted(e) => {
            assert_eq!(e.kind(), ErrorKind::Other);
            assert_eq!(e.message(), "daemon process is alive but socket file is missing");
        }
        other => panic!("unexpected {other:?}"),
    }
}

#[test]
fn dead_daemon_leaves_stale_files() {
    let c = status(Ok(321), false, true);
    assert!(matches!(c.state, State::NotRunning));
    assert!(c.remove_pid_file && c.remove_socket);
    let c = status(Ok(321), false, false);
    assert!(c.remove_pid_file && !c.remove_socket);
}

#[test]
fn missing_pid_file_means_not_running() {
    let c = status(Err(pid::Error::from_kind(pid::ErrorKind::PidFileNotFound)), false, true);
    assert!(matches!(c.state, State::NotRunning));
    assert!(!c.remove_pid_file && c.remove_socket);
}

#[test]
fn unreadable_pid_file_means_unknown() {
    let c = status(Err(pid_err(pid::ErrorKind::InvalidPidFileContent, "invalid digit found in string")), true, true);
    match c.state {
        State::StateUnknown(e) => assert_eq!(e.message(), "invalid digit found in string"),
        other => panic!("unexpected {other:?}"),
    }
    assert!(!c.remove_pid_file && !c.remove_socket);
}

#[test]
fn liveness_probe() {
    assert!(is_process_alive(SignalOutcome::Delivered));
    assert!(!is_process_alive(SignalOutcome::NoSuchProcess));
}

#[test]
fn starting_the_daemon() {
    assert!(matches!(before_create(State::NotRunning), Ok(None)));
    assert!(matches!(before_create(State::Running { pid: 5 }), Ok(Some(State::Running { pid: 5 }))));
    let e = before_create(State::Corrupted(Error::other("broken".to_string()))).unwrap_err();
    assert_eq!((e.kind(), e.message()), (ErrorKind::Other, "broken".to_string()));
    assert!(matches!(after_spawn(Ok(77)), Ok(State::ProcessCreated)));
    assert_eq!(after_spawn(Err("no exe".to_string())).unwrap_err().message(), "no exe");
    assert_eq!(daemon_init_arg(), "--initializedaemoninternalcmd");
}

#[test]
fn stopping_the_daemon() {
    assert_eq!(before_destroy(State::Running { pid: 9 }).unwrap(), Some(9));
    assert_eq!(before_destroy(State::NotRunning).unwrap(), None);
    let e = before_destroy(State::StateUnknown(Error::other("unknown".to_string()))).unwrap_err();
    assert_eq!(e.message(), "unknown");
    assert!(matches!(after_stop_signal(Ok(())), Ok(State::StopRequested)));
    assert_eq!(after_stop_signal(Err("EPERM".to_string())).unwrap_err().message(), "EPERM");
}

#[test]
fn reports_of_daemon_commands() {
    let r = start_report(Ok(State::ProcessCreated));
    assert_eq!(r.out, vec!["Daemon started"]);
    assert!(r.err.is_empty() && r.result.is_ok());
    let r = start_report(Ok(State::Running { pid: 1 }));
    assert_eq!(r.out, vec!["Daemon is already running"]);
    let r = start_report(Err(Error::other("spawn failed".to_string())));
    assert_eq!(r.err, vec!["Failed to create daemon: spawn failed"]);
    assert!(r.result.is_err());
    let r = stop_report(Ok(State::StopRequested));
    assert_eq!(
        r.out,
        vec!["Daemon stop requested. To verify that daemon is stopped, check its status with the corresponding command"]
    );
    let r = stop_report(Ok(State::NotRunning));
    assert_eq!(r.out, vec!["Daemon is already not running"]);
    let r = stop_report(Err(Error::other("EPERM".to_string())));
    assert_eq!(r.err, vec!["Failed to stop daemon: EPERM"]);
    assert_eq!(status_report(State::Running { pid: 3 }).out, vec!["Daemon is running"]);
    assert_eq!(status_report(State::NotRunning).out, vec!["Daemon is not running"]);
    let r = status_report(State::StateUnknown(Error::other("bad pid".to_string())));
    assert_eq!(r.err, vec!["Failed to obtain daemon state: bad pid. Try stop the daemon"]);
    let r = status_report(State::Corrupted(Error::other("no socket".to_string())));
    assert_eq!(r.err, vec!["Daemon is corrupted: no socket. Try stop the daemon"]);
    assert!(r.result.is_err());
}

#[test]
fn readiness_for_interactive_and_info() {
    let r = readiness_report(State::Running { pid: 3 });
    assert!(r.out.is_empty() && r.err.is_empty() && r.result.is_ok());
    let r = readiness_report(State::NotRunning);
    assert_eq!(r.err, vec!["Daemon is not running. Start daemon first"]);
    assert_eq!(r.result.unwrap_err().message(), "daemon is not running");
    let r = readiness_report(State::Corrupted(Error::other("x".to_string())));
    assert_eq!(r.err, vec!["Cannot proceed: daemon state is corrupted: x"]);
    let r = readiness_report(State::StateUnknown(Error::other("y".to_string())));
    assert_eq!(r.err, vec!["Cannot proceed: daemon state is unknown: y"]);
}

#[test]
fn interactive_failure_lines() {
    let e = Error::new(ErrorKind::DaemonAbortedConnection, "closed".to_string());
    assert_eq!(repl_failure_line(&e), "Daemon closed connection: closed");
    let e = Error::from_kind(ErrorKind::DaemonConnectionFailed);
    assert_eq!(repl_failure_line(&e), "Failed to connect to daemon: failed to create session with daemon");
    let e = Error::new(ErrorKind::ReplInitFailed, "tty".to_string());
    assert_eq!(repl_failure_line(&e), "Interactive mode failed to initialize: tty");
    assert_eq!(repl_failure_line(&Error::other("z".to_string())), "Interactive mode failed: z");
}

#[test]
fn info_commands() {
    assert!(matches!(info_request(&InfoCmd::List), ClientRequest::List));
    assert!(matches!(info_request(&InfoCmd::Myid), ClientRequest::MyID));
    let e = escalated(Error::new(ErrorKind::DaemonAbortedConnection, "gone".to_string()), ErrorKind::SendCommandFailed);
    assert_eq!((e.kind(), e.message()), (ErrorKind::SendCommandFailed, "gone".to_string()));
    let e = escalated(Error::other("bad json".to_string()), ErrorKind::SendCommandFailed);
    assert_eq!((e.kind(), e.message()), (ErrorKind::Other, "bad json".to_string()));
}

#[test]
fn info_answers() {
    let r = info_report(DaemonEvent::PeerList { peers: vec![] }).unwrap();
    assert_eq!(r.out, vec!["no peers connected"]);
    let r = info_report(DaemonEvent::PeerList { peers: vec!["a".into(), "b".into()] }).unwrap();
    assert_eq!(r.out, vec!["a", "b"]);
    let r = info_report(DaemonEvent::Error { message: "nope".into() }).unwrap();
    assert_eq!(r.err, vec!["Daemon error: nope"]);
    assert_eq!(r.result.unwrap_err().message(), "nope");
    assert!(info_report(DaemonEvent::PeerConnected { peer_id: "p".into() }).is_none());
}

fn ticket() -> (String, String) {
    let id = iroh::SecretKey::from_bytes(&[7u8; 32]).public();
    let addr = iroh::EndpointAddr::new(id);
    (serde_json::to_string(&addr).unwrap(), id.to_string())
}

#[test]
fn myid_output_names_the_endpoint() {
    let (t, id) = ticket();
    let expected = format!("my endpoint ID: {id}\nmy ticket: {t}\ntip: connect using either endpoint id or full ticket");
    assert_eq!(format_myid_output(&t), expected);
    let r = info_report(DaemonEvent::MyId { endpoint_id: t.clone() }).unwrap();
    assert_eq!(r.out, vec![expected]);
}

#[test]
fn myid_output_of_a_bad_ticket() {
    assert_eq!(
        format_myid_output("garbage"),
        "my endpoint ID: <failed-to-parse-endpoint-id>\nmy ticket: garbage\ntip: connect using either endpoint id or full ticket"
    );
}

#[test]
fn socket_failures_seen_by_the_client() {
    let e = from_socket_error(socket::Error::from_kind(socket::ErrorKind::ConnectionAborted));
    assert_eq!(e.kind(), ErrorKind::DaemonAbortedConnection);
    assert_eq!(e.message(), "socket connection aborted by counterparty");
    let e = from_socket_error(socket::Error::new(socket::ErrorKind::ReadFromSocket, "eio".to_string()));
    assert_eq!((e.kind(), e.message()), (ErrorKind::Other, "eio".to_string()));
}

#[test]
fn client_actions_and_log_level() {
    assert!(matches!(action(Command::Client { subcmd: ClientCmd::Interactive }), Action::Interactive));
    assert!(matches!(action(Command::Daemon { subcmd: DaemonCmd::Stop }), Action::Daemon(DaemonCmd::Stop)));
    assert!(matches!(action(Command::Info(InfoCmd::List)), Action::Info(InfoCmd::List)));
    assert!(matches!(client(&ClientCmd::Interactive), Action::Interactive));
    assert_eq!(log_level_or_default(String::new()), "info");
    assert_eq!(log_level_or_default("debug".to_string()), "debug");
}

#[test]
fn client_error_texts() {
    assert_eq!(Error::from_kind(ErrorKind::ShlexFailed).message(), "failed to parse input: shlex split error");
    let w = Error::new(ErrorKind::ClapFailed, "bad".to_string()).wrapped(ErrorKind::ReplInitFailed);
    assert_eq!((w.kind(), w.message()), (ErrorKind::ReplInitFailed, "bad".to_string()));
}

#[test]
fn daemon_log_level_choice() {
    assert_eq!(start_log_level(Some("debug".into()), Some("warn".into())).unwrap(), "debug");
    assert_eq!(start_log_level(None, Some("warn".into())).unwrap(), "warn");
    assert_eq!(start_log_level(None, None).unwrap(), "info");
    assert_eq!(
        start_log_level(None, Some("loud".into())).unwrap_err(),
        "invalid log level 'loud'. Expected one of: error, warn, info, debug"
    );
}
