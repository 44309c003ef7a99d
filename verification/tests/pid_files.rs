use p2p_chat::daemon::pidfile;
use p2p_chat::io_kind::{IoErrorKind, IoFailure};
use p2p_chat::library::pid as old_pid;
use p2p_chat::pid::{
    after_dir_removal, after_file_removal, create_after_cleanup, parse_pid_content, pid_text, read_outcome,
    Error, ErrorKind,
};

fn failure(kind: IoErrorKind, message: &str) -> IoFailure {
    IoFailure { kind, message: message.to_string() }
}

#[test]
fn pid_written_is_pid_read() {
    for pid in [1, 42, 31337, i32::MAX, -5, 0, i32::MIN] {
        let text = pid_text(pid);
        assert_eq!(text, pid.to_string());
        assert_eq!(parse_pid_content(&text).unwrap(), pid);
    }
}

#[test]
fn pid_content_may_have_surrounding_white_space() {
    assert_eq!(parse_pid_content("  1234\n").unwrap(), 1234);
    assert_eq!(parse_pid_content("+77").unwrap(), 77);
}

#[test]
fn invalid_pid_contents_are_refused() {
    let e = parse_pid_content("").unwrap_err();
    assert_eq!(e.kind(), ErrorKind::InvalidPidFileContent);
    assert_eq!(e.message(), "cannot parse integer from empty string");
    let e = parse_pid_content("12a").unwrap_err();
    assert_eq!(e.message(), "invalid digit found in string");
    let e = parse_pid_content("2147483648").unwrap_err();
    assert_eq!(e.message(), "number too large to fit in target type");
    let e = parse_pid_content("-2147483649").unwrap_err();
    assert_eq!(e.message(), "number too small to fit in target type");
}

#[test]
fn reading_a_missing_pid_file() {
    let e = read_outcome(Err(failure(IoErrorKind::NotFound, "no such file"))).unwrap_err();
    assert_eq!(e.kind(), ErrorKind::PidFileNotFound);
    assert_eq!(e.message(), "PID file not found");
    let e = read_outcome(Err(failure(IoErrorKind::PermissionDenied, "denied"))).unwrap_err();
    assert_eq!(e.kind(), ErrorKind::ReadFromPidFile);
    assert_eq!(e.message(), "denied");
    assert_eq!(read_outcome(Ok("99\n".to_string())).unwrap(), 99);
}

#[test]
fn pid_cleanup_outcomes() {
    assert!(after_file_removal(Err(failure(IoErrorKind::NotFound, "gone"))).is_ok());
    assert_eq!(
        after_file_removal(Err(failure(IoErrorKind::PermissionDenied, "denied"))).unwrap_err().kind(),
        ErrorKind::RemovePidFile
    );
    assert!(after_dir_removal(Err(failure(IoErrorKind::DirectoryNotEmpty, "busy"))).is_ok());
    assert_eq!(
        after_dir_removal(Err(failure(IoErrorKind::Other, "odd"))).unwrap_err().kind(),
        ErrorKind::RemoveParentDir
    );
    assert!(create_after_cleanup(Err(Error::new(ErrorKind::RemoveParentDir, "x".to_string()))).is_ok());
    assert_eq!(
        create_after_cleanup(Err(Error::new(ErrorKind::RemovePidFile, "y".to_string()))).unwrap_err().kind(),
        ErrorKind::RemovePidFile
    );
}

#[test]
fn first_daemon_pid_file_reads() {
    assert_eq!(pidfile::pid_from_read(Ok(" 4242 \n".to_string())), Some(4242));
    assert_eq!(pidfile::pid_from_read(Err(failure(IoErrorKind::NotFound, "gone"))), None);
    assert_eq!(old_pid::pid_from_read(Ok("-3".to_string())), Some(-3));
    assert_eq!(old_pid::pid_from_read(Err(failure(IoErrorKind::NotFound, "gone"))), None);
}

#[test]
fn tolerated_parent_dir_failures() {
    assert!(old_pid::tolerated_dir_removal(IoErrorKind::NotFound));
    assert!(old_pid::tolerated_dir_removal(IoErrorKind::DirectoryNotEmpty));
    assert!(!old_pid::tolerated_dir_removal(IoErrorKind::PermissionDenied));
}
