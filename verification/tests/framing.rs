use p2p_chat::io_kind::{IoErrorKind, IoFailure};
use p2p_chat::library::socket as old_socket;
use p2p_chat::socket::{
    after_dir_removal, after_file_removal, create_after_cleanup, encode_frame, finish_frame,
    frame_header, is_connection_abort_like, parse_frame_header, read_failure, write_failure, Error, ErrorKind,
    MAX_FRAME_BYTES,
};

#[test]
fn frame_roundtrip_carries_the_message() {
    let frame = encode_frame("héllo").unwrap();
    assert_eq!(&frame[..4], &[0, 0, 0, 6]);
    let n = parse_frame_header(&frame[..4]).unwrap();
    assert_eq!(n, 6);
    assert_eq!(frame.len(), 4 + n as usize);
    let text = finish_frame(frame[4..].to_vec()).unwrap();
    assert_eq!(text, "héllo");
}

#[test]
fn empty_message_has_a_zero_header() {
    assert_eq!(encode_frame("").unwrap(), vec![0, 0, 0, 0]);
    assert_eq!(frame_header("").unwrap(), vec![0, 0, 0, 0]);
}

#[test]
fn header_is_big_endian() {
    let m = "x".repeat(0x0102);
    assert_eq!(frame_header(&m).unwrap(), vec![0, 0, 1, 2]);
    assert_eq!(parse_frame_header(&[0, 1, 0, 0]).unwrap(), 65536);
}

#[test]
fn frame_at_the_limit_is_accepted() {
    let m = "a".repeat(MAX_FRAME_BYTES as usize);
    let f = encode_frame(&m).unwrap();
    assert_eq!(f.len(), 4 + 65536);
}

#[test]
fn frame_over_the_limit_is_refused() {
    let m = "a".repeat(MAX_FRAME_BYTES as usize + 1);
    let e = encode_frame(&m).unwrap_err();
    assert_eq!(e.kind(), ErrorKind::FrameTooLarge);
    assert_eq!(e.message(), "this frame is 65537 bytes but the maximum is 65536 bytes");
}

#[test]
fn announced_length_over_the_limit_is_refused() {
    let e = parse_frame_header(&[0, 1, 0, 1]).unwrap_err();
    assert_eq!(e.kind(), ErrorKind::FrameTooLarge);
    assert_eq!(e.message(), "this frame is 65537 bytes but the maximum is 65536 bytes");
}

#[test]
fn payload_that_is_not_utf8_is_refused() {
    let e = finish_frame(vec![0xff, 0xfe]).unwrap_err();
    assert_eq!(e.kind(), ErrorKind::InvalidUtf8);
    assert_eq!(e.message(), "socket payload was not valid UTF-8");
}

#[test]
fn abort_like_failures() {
    assert!(is_connection_abort_like(IoErrorKind::BrokenPipe));
    assert!(is_connection_abort_like(IoErrorKind::ConnectionReset));
    assert!(is_connection_abort_like(IoErrorKind::ConnectionAborted));
    assert!(is_connection_abort_like(IoErrorKind::UnexpectedEof));
    assert!(!is_connection_abort_like(IoErrorKind::NotFound));
    assert!(!is_connection_abort_like(IoErrorKind::Other));
}

fn failure(kind: IoErrorKind, message: &str) -> IoFailure {
    IoFailure { kind, message: message.to_string() }
}

#[test]
fn socket_cleanup_tolerates_missing_files() {
    assert!(after_file_removal(Ok(())).is_ok());
    assert!(after_file_removal(Err(failure(IoErrorKind::NotFound, "gone"))).is_ok());
    let e = after_file_removal(Err(failure(IoErrorKind::PermissionDenied, "denied"))).unwrap_err();
    assert_eq!(e.kind(), ErrorKind::RemoveSocketFile);
    assert_eq!(e.message(), "denied");
    assert!(after_dir_removal(Err(failure(IoErrorKind::DirectoryNotEmpty, "busy"))).is_ok());
    assert!(after_dir_removal(Err(failure(IoErrorKind::NotFound, "gone"))).is_ok());
    let e = after_dir_removal(Err(failure(IoErrorKind::Other, "odd"))).unwrap_err();
    assert_eq!(e.kind(), ErrorKind::RemoveParentDir);
}

#[test]
fn socket_creation_goes_on_after_a_parent_dir_failure_only() {
    assert!(create_after_cleanup(Ok(())).is_ok());
    assert!(create_after_cleanup(Err(Error::new(ErrorKind::RemoveParentDir, "x".to_string()))).is_ok());
    let e = create_after_cleanup(Err(Error::new(ErrorKind::RemoveSocketFile, "y".to_string()))).unwrap_err();
    assert_eq!(e.kind(), ErrorKind::RemoveSocketFile);
    assert_eq!(e.message(), "y");
}

#[test]
fn error_without_cause_shows_its_kind() {
    assert_eq!(Error::from_kind(ErrorKind::ConnectionAborted).message(), "socket connection aborted by counterparty");
}

#[test]
fn plain_frame_has_no_limit_on_writing() {
    let f = old_socket::frame("hi");
    assert_eq!(f, vec![0, 0, 0, 2, b'h', b'i']);
    let big = "b".repeat(70000);
    let f = old_socket::frame(&big);
    assert_eq!(&f[..4], &[0, 1, 0x11, 0x70]);
}

#[test]
fn plain_frame_read_limits() {
    assert_eq!(old_socket::check_frame_len(65536).unwrap(), 65536);
    let e = old_socket::check_frame_len(65537).unwrap_err();
    assert_eq!(e.kind, IoErrorKind::InvalidData);
    assert_eq!(e.message, "socket frame exceeds maximum allowed size");
    assert_eq!(old_socket::message_of(b"ok".to_vec()), "ok");
}

#[test]
fn plain_frame_abort_reports() {
    let f = old_socket::on_write_failure(IoErrorKind::BrokenPipe);
    assert_eq!(f.kind, IoErrorKind::ConnectionAborted);
    assert_eq!(f.message, "connection aborted by CLI client");
    let f = old_socket::on_read_failure(IoErrorKind::UnexpectedEof);
    assert_eq!(f.kind, IoErrorKind::ConnectionAborted);
}

#[test]
fn socket_read_and_write_failures() {
    let e = read_failure(failure(IoErrorKind::UnexpectedEof, "eof"));
    assert_eq!(e.kind(), ErrorKind::ConnectionAborted);
    assert!(e.payload.is_none());
    let e = read_failure(failure(IoErrorKind::Other, "eio"));
    assert_eq!((e.kind(), e.message()), (ErrorKind::ReadFromSocket, "eio".to_string()));
    let e = write_failure(failure(IoErrorKind::BrokenPipe, "pipe"));
    assert_eq!(e.kind(), ErrorKind::ConnectionAborted);
    let e = write_failure(failure(IoErrorKind::PermissionDenied, "denied"));
    assert_eq!((e.kind(), e.message()), (ErrorKind::WriteToSocket, "denied".to_string()));
}
