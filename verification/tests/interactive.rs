use p2p_chat::cli_interface::{CommunicateCmd, InfoCmd, InteractiveCommand};
use p2p_chat::client::error::{Error, ErrorKind};
use p2p_chat::client::repl::{
    init_failure, on_input, on_parsed, render_daemon_event, session_failure, split_input, InputStep, LogicOut,
    ParsedStep, ReplComponent, ReplInput,
};
use p2p_chat::schemas::{ClientRequest, DaemonEvent};

#[test]
fn rendering_daemon_events() {
    assert_eq!(render_daemon_event(DaemonEvent::PeerList { peers: vec![] }), "no peers connected");
    assert_eq!(
        render_daemon_event(DaemonEvent::PeerList { peers: vec!["a".into(), "b".into()] }),
        "Connected peers: \n  - a\n  - b"
    );
    assert_eq!(render_daemon_event(DaemonEvent::Success { info: "connected to x".into() }), "ok: connected to x");
    assert_eq!(render_daemon_event(DaemonEvent::Error { message: "send failed: y".into() }), "error: send failed: y");
    assert_eq!(render_daemon_event(DaemonEvent::PeerConnected { peer_id: "p1".into() }), "*** peer connected: p1");
    assert_eq!(
        render_daemon_event(DaemonEvent::PeerDisconnected { peer_id: "p1".into() }),
        "*** peer disconnected: p1"
    );
}

#[test]
fn rendering_a_chat_message() {
    let line = render_daemon_event(DaemonEvent::PeerMessage {
        peer_id: "p2".into(),
        message: "hi there".into(),
        timestamp_secs: 1_700_000_000,
    });
    assert!(line.starts_with('['));
    assert!(line.ends_with("] <p2> hi there"));
    let time = &line[1..9];
    assert_eq!(time.len(), 8);
    assert_eq!(&time[2..3], ":");
    assert_eq!(&time[5..6], ":");
    let bad = render_daemon_event(DaemonEvent::PeerMessage {
        peer_id: "p2".into(),
        message: "m".into(),
        timestamp_secs: i64::MAX,
    });
    assert_eq!(bad, "[<invalid-time>] <p2> m");
}

#[test]
fn blank_lines_are_skipped() {
    assert!(matches!(on_input(ReplInput::Line("   \t".into())), InputStep::Done(Ok(LogicOut::Continue))));
    match on_input(ReplInput::Line("  list \n".into())) {
        InputStep::Parse(t) => assert_eq!(t, "list"),
        other => panic!("unexpected {other:?}"),
    }
}

#[test]
fn control_keys() {
    match on_input(ReplInput::Interrupted) {
        InputStep::Done(Ok(LogicOut::Print(t))) => assert_eq!(t, "\nUse `quit` to exit interactive mode"),
        other => panic!("unexpected {other:?}"),
    }
    match on_input(ReplInput::Eof) {
        InputStep::Done(Ok(LogicOut::Quit { message })) => {
            assert_eq!(message, "EOF received, quitting interactive mode...")
        }
        other => panic!("unexpected {other:?}"),
    }
    match on_input(ReplInput::Failed("tty gone".into())) {
        InputStep::Done(Err(e)) => assert_eq!((e.kind(), e.message()), (ErrorKind::Other, "tty gone".to_string())),
        other => panic!("unexpected {other:?}"),
    }
}

#[test]
fn parsed_commands() {
    match on_parsed(Ok(InteractiveCommand::Quit)) {
        ParsedStep::Out(LogicOut::Quit { message }) => assert_eq!(message, "Quitting interactive mode..."),
        other => panic!("unexpected {other:?}"),
    }
    match on_parsed(Ok(InteractiveCommand::Communicate(CommunicateCmd::Send {
        peer_id: "p".into(),
        message: "hello".into(),
    }))) {
        ParsedStep::Send(ClientRequest::Send { peer_id, message }) => {
            assert_eq!((peer_id.as_str(), message.as_str()), ("p", "hello"))
        }
        other => panic!("unexpected {other:?}"),
    }
    assert!(matches!(on_parsed(Ok(InteractiveCommand::Info(InfoCmd::Myid))), ParsedStep::Send(ClientRequest::MyID)));
    match on_parsed(Err(Error::new(ErrorKind::ClapFailed, "error: unrecognized subcommand".into()))) {
        ParsedStep::Out(LogicOut::Print(t)) => assert_eq!(t, "error: unrecognized subcommand"),
        other => panic!("unexpected {other:?}"),
    }
}

#[test]
fn splitting_input_like_a_shell() {
    assert_eq!(split_input("send peer 'hello world'").unwrap(), vec!["send", "peer", "hello world"]);
    assert_eq!(split_input("send peer \"a b\" c").unwrap(), vec!["send", "peer", "a b", "c"]);
    assert!(split_input("send peer 'unclosed").is_none());
    assert!(split_input("").unwrap().is_empty());
}

#[test]
fn session_failures() {
    let e = session_failure(Error::new(ErrorKind::DaemonAbortedConnection, "bye".into()));
    assert_eq!((e.kind(), e.message()), (ErrorKind::DaemonAbortedConnection, "bye".to_string()));
    let e = session_failure(Error::new(ErrorKind::SendCommandFailed, "eio".into()));
    assert_eq!((e.kind(), e.message()), (ErrorKind::Other, "eio".to_string()));
}

#[test]
fn interactive_commands_become_requests() {
    let r = ClientRequest::from(InteractiveCommand::Quit);
    assert!(matches!(r, ClientRequest::Bye));
    let r = ClientRequest::from(InteractiveCommand::Communicate(CommunicateCmd::Connect { peer_id: "t".into() }));
    assert!(matches!(r, ClientRequest::Connect { peer_id } if peer_id == "t"));
    let r = ClientRequest::from(InteractiveCommand::Communicate(CommunicateCmd::Disconnect { peer_id: "t".into() }));
    assert!(matches!(r, ClientRequest::Disconnect { peer_id } if peer_id == "t"));
    assert!(matches!(ClientRequest::from(InteractiveCommand::Info(InfoCmd::List)), ClientRequest::List));
}

#[test]
fn interactive_mode_start_failures() {
    let e = init_failure(ReplComponent::Editor, "not a tty");
    assert_eq!((e.kind(), e.message()), (ErrorKind::Other, "failed to initialize repl engine: not a tty".to_string()));
    let e = init_failure(ReplComponent::Session, "refused").wrapped(ErrorKind::ReplInitFailed);
    assert_eq!(e.kind(), ErrorKind::ReplInitFailed);
    assert_eq!(e.message(), "failed to create session with daemon: refused");
}
