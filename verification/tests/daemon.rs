use p2p_chat::daemon::error::{Error, ErrorKind};
use p2p_chat::daemon::logger::{daemon_log_spec, is_iroh_record, is_iroh_target};
use p2p_chat::daemon::network::{connect_payload_of, incoming_message, not_connected_text, parse_connect_target, PeerRegistry};
use p2p_chat::daemon::session::{admit_one, busy_reason, release_one, remove_connection, try_add_connection};
use p2p_chat::daemon::{
    action_for, failure_line, from_socket_error, init_failure, on_client_request, on_event_sent, respond,
    ActionOutcome, GatewayStep, InitStep, NetworkAction,
};
use p2p_chat::schemas::{ClientRequest, DaemonEvent, NetEvent};
use p2p_chat::socket;
use std::sync::atomic::{AtomicU32, Ordering};

fn ok_event(r: Result<Option<DaemonEvent>, Error>) -> DaemonEvent {
    r.unwrap().unwrap()
}

#[test]
fn answers_to_requests() {
    assert!(respond(&ClientRequest::Bye, ActionOutcome::Nothing).unwrap().is_none());
    match ok_event(respond(&ClientRequest::MyID, ActionOutcome::Ticket(Ok("T".into())))) {
        DaemonEvent::MyId { endpoint_id } => assert_eq!(endpoint_id, "T"),
        other => panic!("unexpected {other:?}"),
    }
    let e = respond(&ClientRequest::MyID, ActionOutcome::Ticket(Err(Error::other("serde".into())))).unwrap_err();
    assert_eq!(e.message(), "serde");
    match ok_event(respond(&ClientRequest::List, ActionOutcome::Peers(vec!["a".into()]))) {
        DaemonEvent::PeerList { peers } => assert_eq!(peers, vec!["a"]),
        other => panic!("unexpected {other:?}"),
    }
}

#[test]
fn answers_to_connect_and_disconnect() {
    let c = ClientRequest::Connect { peer_id: "ticket".into() };
    match ok_event(respond(&c, ActionOutcome::Connected(Ok("abc".into())))) {
        DaemonEvent::Success { info } => assert_eq!(info, "connected to abc"),
        other => panic!("unexpected {other:?}"),
    }
    match ok_event(respond(&c, ActionOutcome::Connected(Err("timeout".into())))) {
        DaemonEvent::Error { message } => assert_eq!(message, "failed to connect: timeout"),
        other => panic!("unexpected {other:?}"),
    }
    let d = ClientRequest::Disconnect { peer_id: "abc".into() };
    match ok_event(respond(&d, ActionOutcome::Disconnected(Ok(true)))) {
        DaemonEvent::Success { info } => assert_eq!(info, "disconnected from abc"),
        other => panic!("unexpected {other:?}"),
    }
    match ok_event(respond(&d, ActionOutcome::Disconnected(Ok(false)))) {
        DaemonEvent::Error { message } => assert_eq!(message, "peer abc is not connected"),
        other => panic!("unexpected {other:?}"),
    }
    match ok_event(respond(&d, ActionOutcome::Disconnected(Err("io".into())))) {
        DaemonEvent::Error { message } => assert_eq!(message, "disconnect failed: io"),
        other => panic!("unexpected {other:?}"),
    }
}

#[test]
fn answers_to_send() {
    let s = ClientRequest::Send { peer_id: "abc".into(), message: "hi".into() };
    match ok_event(respond(&s, ActionOutcome::Sent { outcome: Ok(()), at_secs: 1_700_000_000 })) {
        DaemonEvent::Success { info } => {
            assert!(info.starts_with("sent to abc at "));
            assert_eq!(info.len(), "sent to abc at ".len() + 8);
        }
        other => panic!("unexpected {other:?}"),
    }
    match ok_event(respond(&s, ActionOutcome::Sent { outcome: Ok(()), at_secs: i64::MAX })) {
        DaemonEvent::Success { info } => assert_eq!(info, "sent to abc at <invalid-time>"),
        other => panic!("unexpected {other:?}"),
    }
    match ok_event(respond(&s, ActionOutcome::Sent { outcome: Err("closed".into()), at_secs: 0 })) {
        DaemonEvent::Error { message } => assert_eq!(message, "send failed: closed"),
        other => panic!("unexpected {other:?}"),
    }
}

#[test]
fn actions_for_requests() {
    assert!(matches!(action_for(&ClientRequest::Bye), NetworkAction::Nothing));
    assert!(matches!(action_for(&ClientRequest::MyID), NetworkAction::Ticket));
    match action_for(&ClientRequest::Send { peer_id: "p".into(), message: "m".into() }) {
        NetworkAction::Send { peer_id, message } => assert_eq!((peer_id.as_str(), message.as_str()), ("p", "m")),
        other => panic!("unexpected {other:?}"),
    }
}

#[test]
fn gateway_steps() {
    assert!(matches!(on_client_request(Ok(ClientRequest::Bye)), GatewayStep::EndSession));
    assert!(matches!(on_client_request(Ok(ClientRequest::List)), GatewayStep::Forward(ClientRequest::List)));
    let aborted = Error::new(ErrorKind::ClientAbortedConnection, "gone".into());
    assert!(matches!(on_client_request(Err(aborted)), GatewayStep::EndSession));
    match on_client_request(Err(Error::other("garbled".into()))) {
        GatewayStep::Fail(e) => assert_eq!((e.kind(), e.message()), (ErrorKind::Other, "garbled".to_string())),
        _ => panic!("expected a failure"),
    }
    assert!(matches!(on_event_sent(Ok(())), GatewayStep::Continue));
    let aborted = Error::new(ErrorKind::ClientAbortedConnection, "gone".into());
    assert!(matches!(on_event_sent(Err(aborted)), GatewayStep::EndSession));
}

#[test]
fn daemon_failure_texts() {
    let e = from_socket_error(socket::Error::from_kind(socket::ErrorKind::ConnectionAborted));
    assert_eq!(e.kind(), ErrorKind::ClientAbortedConnection);
    let e = from_socket_error(socket::Error::new(socket::ErrorKind::ReadFromSocket, "eio".into()));
    assert_eq!((e.kind(), e.message()), (ErrorKind::Other, "eio".to_string()));
    let e = Error::new(ErrorKind::ClientAcceptFailed, "emfile".into());
    assert_eq!(failure_line(&e), "Daemon failed to accept client connection: emfile");
    assert_eq!(failure_line(&Error::other("boom".into())), "Daemon failed: boom");
    assert_eq!(failure_line(&Error::from_kind(ErrorKind::DaemonInitFailed)), "Daemon failed: failed to initialize daemon components");
    let e = init_failure(InitStep::Networking, "no route");
    assert_eq!(e.message(), "failed to initialize networking stack: no route");
    assert_eq!(init_failure(InitStep::PidFile, "x").message(), "failed to create daemon PID file: x");
}

#[test]
fn registry_tracks_connections() {
    let mut reg: PeerRegistry<u32> = PeerRegistry::new();
    assert!(reg.register("a".to_string(), 1, false).is_none());
    match reg.register("b".to_string(), 2, true) {
        Some(NetEvent::PeerConnected { peer_id }) => assert_eq!(peer_id, "b"),
        other => panic!("unexpected {other:?}"),
    }
    reg.register("a".to_string(), 3, false);
    assert_eq!(reg.list_peers(), vec!["a", "b"]);
    assert_eq!(reg.get(&"a".to_string()), Some(&3));
    assert_eq!(reg.disconnect(&"a".to_string()), Some(3));
    assert_eq!(reg.disconnect(&"zz".to_string()), None);
    assert_eq!(reg.list_peers(), vec!["b"]);
    assert!(reg.get(&"a".to_string()).is_none());
}

#[test]
fn requested_disconnect_is_not_reported() {
    let mut reg: PeerRegistry<u32> = PeerRegistry::new();
    reg.register("a".to_string(), 1, false);
    reg.register("b".to_string(), 2, false);
    reg.disconnect(&"a".to_string());
    assert!(reg.on_receive_loop_end("a".to_string()).is_none());
    match reg.on_receive_loop_end("b".to_string()) {
        Some(NetEvent::PeerDisconnected { peer_id }) => assert_eq!(peer_id, "b"),
        other => panic!("unexpected {other:?}"),
    }
    assert!(reg.list_peers().is_empty());
    match reg.on_receive_loop_end("a".to_string()) {
        Some(NetEvent::PeerDisconnected { peer_id }) => assert_eq!(peer_id, "a"),
        other => panic!("unexpected {other:?}"),
    }
}

#[test]
fn incoming_messages() {
    match incoming_message("p".into(), "héllo".as_bytes().to_vec(), 1234) {
        Some(NetEvent::PeerMessage { peer_id, message, timestamp_secs }) => {
            assert_eq!((peer_id.as_str(), message.as_str(), timestamp_secs), ("p", "héllo", 1234))
        }
        other => panic!("unexpected {other:?}"),
    }
    assert!(incoming_message("p".into(), vec![0xc3, 0x28], 1).is_none());
    assert_eq!(not_connected_text("x"), "peer x is not connected");
}

fn ticket() -> (String, String) {
    let id = iroh::SecretKey::from_bytes(&[9u8; 32]).public();
    let addr = iroh::EndpointAddr::new(id);
    (serde_json::to_string(&addr).unwrap(), id.to_string())
}

#[test]
fn connect_targets() {
    assert_eq!(connect_payload_of("  abc  "), "abc");
    assert_eq!(connect_payload_of("my ticket: {\"a\":1}"), "{\"a\":1}");
    assert_eq!(connect_payload_of("my ticket:"), "");
    let (t, id) = ticket();
    assert_eq!(parse_connect_target(&t).unwrap().id.to_string(), id);
    assert_eq!(parse_connect_target(&format!("my ticket: {t}\n")).unwrap().id.to_string(), id);
    assert_eq!(parse_connect_target(&format!("  {id} ")).unwrap().id.to_string(), id);
    let e = parse_connect_target("not a peer").unwrap_err();
    assert_eq!(e.message(), "connect expects either a full ticket JSON or a valid endpoint id");
}

#[test]
fn connection_admission() {
    assert_eq!(admit_one(0, 2), Some(1));
    assert_eq!(admit_one(2, 2), None);
    assert_eq!(release_one(1), Some(0));
    assert_eq!(release_one(0), None);
    let counter = AtomicU32::new(0);
    assert!(try_add_connection(&counter, 2));
    assert!(try_add_connection(&counter, 2));
    assert!(!try_add_connection(&counter, 2));
    assert_eq!(counter.load(Ordering::SeqCst), 2);
    remove_connection(&counter);
    assert_eq!(counter.load(Ordering::SeqCst), 1);
    remove_connection(&counter);
    remove_connection(&counter);
    assert_eq!(counter.load(Ordering::SeqCst), 0);
    assert!(!try_add_connection(&counter, 0));
    assert_eq!(busy_reason(8), "Maximum concurrent connections (8) reached");
}

#[test]
fn log_routing() {
    assert!(is_iroh_target("iroh"));
    assert!(is_iroh_target("iroh::endpoint"));
    assert!(is_iroh_target("hickory_resolver::lookup"));
    assert!(!is_iroh_target("irohx"));
    assert!(!is_iroh_target("p2p_chat::daemon"));
    assert!(is_iroh_record("other", Some("quinn::conn")));
    assert!(!is_iroh_record("p2p_chat", None));
    assert_eq!(daemon_log_spec("p2p-chat", "debug"), "info,p2p_chat=debug");
}
