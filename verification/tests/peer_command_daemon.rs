use p2p_chat::client::daemon_control::SignalOutcome;
use p2p_chat::daemon::control::{already_running_line, is_process_alive, stale_pid_notice, started_line, status, stop_outcome};
use p2p_chat::logger::{Error, ErrorKind};
use p2p_chat::service::{daemon_args, running_line, stale_pid_line, start_plan, StartPlan};

#[test]
fn status_of_the_peer_command_daemon() {
    let p = status(Some(10), true, true);
    assert_eq!((p.pid, p.stale_pid, p.stale_socket), (Some(10), None, false));
    let p = status(Some(10), false, true);
    assert_eq!((p.pid, p.stale_pid, p.stale_socket), (None, Some(10), true));
    let p = status(None, false, true);
    assert_eq!((p.pid, p.stale_pid, p.stale_socket), (None, None, true));
    let p = status(None, false, false);
    assert_eq!((p.pid, p.stale_pid, p.stale_socket), (None, None, false));
    assert!(is_process_alive(SignalOutcome::Delivered));
    assert!(!is_process_alive(SignalOutcome::NoSuchProcess));
    assert!(!is_process_alive(SignalOutcome::Failed));
}

#[test]
fn lines_of_the_peer_command_daemon_control() {
    assert_eq!(stale_pid_notice(44), "Found stale daemon PID-file (PID 44) and removed it");
    assert_eq!(already_running_line(44), "Daemon is already running with PID 44; aborting");
    assert_eq!(started_line(4000000000), "Daemon started with pid 4000000000");
    let s = stop_outcome(7, SignalOutcome::Delivered);
    assert!(!s.remove_pid_file);
    assert_eq!(s.line, "Shutting down the daemon with PID 7\nCheck its status with `daemon status` command");
    let s = stop_outcome(7, SignalOutcome::NoSuchProcess);
    assert!(s.remove_pid_file);
    assert_eq!(s.line, "Daemon process with PID 7 does not exist. Removed stale PID file");
    assert_eq!(stop_outcome(7, SignalOutcome::PermissionDenied).line, "Permission denied while stopping daemon with PID 7");
    assert_eq!(stop_outcome(7, SignalOutcome::Failed).line, "Failed to stop daemon with PID 7");
}

#[test]
fn first_service_start() {
    assert!(matches!(start_plan(Some(3), true), StartPlan::AlreadyRunning));
    assert!(matches!(start_plan(Some(3), false), StartPlan::Start { stale: Some(3) }));
    assert!(matches!(start_plan(None, false), StartPlan::Start { stale: None }));
    assert_eq!(stale_pid_line(3), "Found stale PID file with PID 3 and removed it, starting daemon.");
    assert_eq!(daemon_args(), vec!["daemon", "start", "--initialize"]);
    assert_eq!(running_line(8), "Daemon is running with PID 8 (but it will now immediately die after this message.");
}

#[test]
fn logger_errors() {
    let e = Error::new(ErrorKind::LoggerInitFailed, "no dir".into());
    assert_eq!((e.kind(), e.message()), (ErrorKind::LoggerInitFailed, "no dir".to_string()));
    assert_eq!(ErrorKind::LoggerInitFailed.text(), "failed to initialize logger");
}
