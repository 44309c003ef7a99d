use p2p_chat::clock::format_timestamp;
use p2p_chat::ipc::{message_line, received_text, socket_path, MessageStream};
use p2p_chat::message::{response_lines, response_lines_checked, Message, OutputLine, PeerInfo, Response};
use p2p_chat::schemas::{DaemonEvent, NetEvent};
use p2p_chat::types;

fn texts(v: Vec<OutputLine>) -> Vec<(bool, String)> {
    v.into_iter().map(|l| (l.to_stderr, l.text)).collect()
}

#[test]
fn message_display_in_utc() {
    let m = Message::with_timestamp("alice".into(), "hi".into(), 3661);
    assert_eq!(m.display(), "[01:01:01] alice: hi");
    assert_eq!(m.display_checked().unwrap(), "[01:01:01] alice: hi");
    let late = Message::with_timestamp("a".into(), "b".into(), u64::MAX);
    assert!(late.display_checked().is_none());
}

#[test]
fn new_messages_are_stamped_now() {
    let m = Message::new("s".into(), "c".into());
    assert_eq!((m.sender.as_str(), m.content.as_str()), ("s", "c"));
    assert!(m.timestamp > 1_600_000_000);
}

#[test]
fn status_response_lines() {
    let r = Response::Status {
        node_id: "n1".into(),
        local_endpoints: vec!["1.2.3.4:5".into()],
        peers: vec![PeerInfo { peer_id: "p".into(), endpoint: "e".into(), connected: true }],
    };
    assert_eq!(
        texts(response_lines(&r)),
        vec![
            (false, "=== Daemon Status ===".to_string()),
            (false, "Node ID: n1".to_string()),
            (false, "Local Endpoints:".to_string()),
            (false, "  1.2.3.4:5".to_string()),
            (false, "Connected Peers: 1".to_string()),
            (false, "  p - e".to_string()),
        ]
    );
}

#[test]
fn other_response_lines() {
    assert_eq!(
        texts(response_lines(&Response::Peers(vec![]))),
        vec![(false, "=== Connected Peers ===".to_string()), (false, "No connected peers".to_string())]
    );
    assert_eq!(
        texts(response_lines(&Response::Result { success: true, message: "done".into() })),
        vec![(false, "✓ done".to_string())]
    );
    assert_eq!(
        texts(response_lines(&Response::Result { success: false, message: "no".into() })),
        vec![(true, "✗ no".to_string())]
    );
    assert_eq!(texts(response_lines(&Response::Error("bad".into()))), vec![(true, "Error: bad".to_string())]);
    let late = Response::Message(Message::with_timestamp("a".into(), "b".into(), u64::MAX));
    assert!(response_lines_checked(&late).is_none());
}

#[test]
fn first_daemon_responses() {
    let r = types::connect_response(Ok("peer1".into()));
    assert_eq!(texts(response_lines(&r)), vec![(false, "✓ Connected to peer: peer1".to_string())]);
    match r {
        Response::Result { success, message } => assert!(success && message == "Connected to peer: peer1"),
        other => panic!("unexpected {other:?}"),
    }
    let r = types::connect_response(Err("refused".into()));
    assert_eq!(texts(response_lines(&r)), vec![(true, "Error: Connection failed: refused".to_string())]);
    let r = types::send_response("peer1", Ok(()));
    assert_eq!(texts(response_lines(&r)), vec![(false, "✓ Message sent to peer1".to_string())]);
    let r = types::send_response("peer1", Err("x".into()));
    assert_eq!(texts(response_lines(&r)), vec![(true, "Error: Failed: x".to_string())]);
    let m = types::Message::new("s".into(), "c".into());
    assert_eq!((m.sender.as_str(), m.content.as_str()), ("s", "c"));
}

#[test]
fn network_events_reach_the_client_unchanged() {
    match DaemonEvent::from(NetEvent::PeerMessage { peer_id: "p".into(), message: "m".into(), timestamp_secs: 5 }) {
        DaemonEvent::PeerMessage { peer_id, message, timestamp_secs } => {
            assert_eq!((peer_id.as_str(), message.as_str(), timestamp_secs), ("p", "m", 5))
        }
        other => panic!("unexpected {other:?}"),
    }
    assert!(matches!(
        DaemonEvent::from(NetEvent::PeerConnected { peer_id: "q".into() }),
        DaemonEvent::PeerConnected { peer_id } if peer_id == "q"
    ));
    assert!(matches!(
        DaemonEvent::from(NetEvent::PeerDisconnected { peer_id: "q".into() }),
        DaemonEvent::PeerDisconnected { peer_id } if peer_id == "q"
    ));
}

#[test]
fn lines_of_json() {
    assert_eq!(socket_path(), "/tmp/chat_daemon.sock");
    assert_eq!(message_line("{\"a\":1}"), "{\"a\":1}\n");
    assert_eq!(received_text(b"  {}\n").unwrap(), "{}");
    assert!(received_text(b" \n ").is_none());
}

#[test]
fn stream_cuts_lines() {
    let mut s = MessageStream::new(std::io::empty());
    assert!(s.poll_line().is_none());
    s.push_chunk(b"{\"a\":1}\n  \n{\"b\"");
    assert_eq!(s.poll_line().unwrap(), "{\"a\":1}");
    assert!(s.poll_line().is_none());
    assert!(s.poll_line().is_none());
    s.push_chunk(b":2}\n");
    assert_eq!(s.poll_line().unwrap(), "{\"b\":2}");
    s.push_chunk(b"{\"c\":3}");
    assert!(s.poll_line().is_none());
    assert_eq!(s.finish().unwrap(), "{\"c\":3}");
    assert!(s.finish().is_none());
}

#[test]
fn written_line_is_read_back() {
    let mut s = MessageStream::new(std::io::empty());
    let line = message_line("{\"x\":\"y z\"}");
    s.push_chunk(line.as_bytes());
    assert_eq!(s.poll_line().unwrap(), "{\"x\":\"y z\"}");
    assert!(s.finish().is_none());
}

#[test]
fn several_messages_in_one_chunk() {
    let mut s = MessageStream::new(std::io::empty());
    s.push_chunk(b"a\n\n  \nb\nc");
    assert_eq!(s.poll_line().unwrap(), "a");
    assert_eq!(s.poll_line().unwrap(), "b");
    assert!(s.poll_line().is_none());
    assert_eq!(s.finish().unwrap(), "c");
}

#[test]
fn times_chrono_has() {
    assert_eq!(format_timestamp(8210266876799).len(), 8);
    assert_eq!(format_timestamp(8210266876800), "<invalid-time>");
    assert_eq!(format_timestamp(-8334601228800).len(), 8);
    assert_eq!(format_timestamp(-8334601228801), "<invalid-time>");
    let m = Message::with_timestamp("a".into(), "b".into(), 8210266876799);
    assert_eq!(m.display_checked().unwrap(), "[23:59:59] a: b");
    assert!(Message::with_timestamp("a".into(), "b".into(), 8210266876800).display_checked().is_none());
}
