use p2p_chat::daemon::control;
use p2p_chat::daemon::pidfile;
use p2p_chat::paths::{
    cli_log_file_spec, daemon_iroh_log_file_spec, daemon_log_file_spec, daemon_pidfile, daemon_socket, data_dir,
    dir_from_env_or_home, join_path, runtime_dir, state_dir, PathEnv,
};
use p2p_chat::service;

fn env(runtime: Option<&str>, state: Option<&str>, data: Option<&str>, home: Option<&str>) -> PathEnv {
    PathEnv {
        xdg_runtime_dir: runtime.map(|s| s.to_string()),
        xdg_state_home: state.map(|s| s.to_string()),
        xdg_data_home: data.map(|s| s.to_string()),
        home: home.map(|s| s.to_string()),
    }
}

#[test]
fn runtime_files_under_xdg_runtime_dir() {
    let e = env(Some("/run/user/1000"), None, None, Some("/home/a"));
    assert_eq!(runtime_dir(&e), "/run/user/1000/p2pchat");
    assert_eq!(daemon_socket(&e), "/run/user/1000/p2pchat/daemon.sock");
    assert_eq!(daemon_pidfile(&e), "/run/user/1000/p2pchat/daemon.pid");
}

#[test]
fn runtime_files_fall_back_to_the_cache() {
    let e = env(None, None, None, Some("/home/a"));
    assert_eq!(daemon_socket(&e), "/home/a/.cache/p2pchat/daemon.sock");
    assert_eq!(daemon_pidfile(&e), "/home/a/.cache/p2pchat/daemon.pid");
    let relative = env(Some("relative"), None, None, Some("/home/a"));
    assert_eq!(runtime_dir(&relative), "/home/a/.cache/p2pchat");
    let empty = env(Some(""), None, None, Some("/home/a"));
    assert_eq!(runtime_dir(&empty), "/home/a/.cache/p2pchat");
}

#[test]
fn log_and_data_dirs() {
    let e = env(None, Some("/s"), Some("/d"), Some("/home/a"));
    assert_eq!(state_dir(&e), "/s/p2pchat");
    assert_eq!(data_dir(&e), "/d/p2pchat");
    let f = env(None, None, None, Some("/home/a"));
    assert_eq!(state_dir(&f), "/home/a/.local/state/p2pchat");
    assert_eq!(data_dir(&f), "/home/a/.local/share/p2pchat");
}

#[test]
fn log_file_specs() {
    let e = env(None, Some("/s"), None, Some("/home/a"));
    let d = daemon_log_file_spec(&e);
    assert_eq!((d.directory.as_str(), d.basename.as_str(), d.suffix.as_str()), ("/s/p2pchat", "daemon", "log"));
    let i = daemon_iroh_log_file_spec(&e);
    assert_eq!(i.basename, "daemon-iroh");
    let c = cli_log_file_spec(&e);
    assert_eq!((c.directory.as_str(), c.basename.as_str()), ("/s/p2pchat", "cli"));
}

#[test]
fn joining_paths() {
    assert_eq!(join_path("/a", "b"), "/a/b");
    assert_eq!(join_path("/a/", "b"), "/a/b");
    assert_eq!(join_path("/a", "/b"), "/b");
    assert_eq!(join_path("", "b"), "b");
    assert_eq!(dir_from_env_or_home(&Some("/x".to_string()), &None, ".y"), "/x");
    assert_eq!(dir_from_env_or_home(&None, &Some("/h".to_string()), ".y"), "/h/.y");
}

#[test]
fn peer_command_daemon_paths() {
    assert_eq!(control::runtime_state_dir("/run/user/7"), "/run/user/7/p2pchat");
    assert_eq!(control::cache_state_dir("/home/b"), "/home/b/.cache/p2pchat");
    assert_eq!(control::daemon_state_dir(Some("/run/x/p2pchat".to_string()), &None), "/run/x/p2pchat");
    assert_eq!(control::daemon_state_dir(None, &Some("/home/b".to_string())), "/home/b/.cache/p2pchat");
    assert_eq!(control::socket_file_path("/run/x/p2pchat"), "/run/x/p2pchat/daemon.sock");
    assert_eq!(control::pid_file_path("/run/x/p2pchat"), "/run/x/p2pchat/daemon.pid");
}

#[test]
fn first_daemon_pid_paths() {
    assert_eq!(pidfile::pid_file_path(&Some("/run/u".to_string()), &None), "/run/u/p2pchat/p2pchat.pid");
    assert_eq!(
        pidfile::pid_file_path(&None, &Some("/home/c".to_string())),
        "/home/c/.local/share/p2pchat/p2pchat.pid"
    );
    assert_eq!(service::pid_file_path(&Some("/run/u".to_string()), &None), "/run/u/p2pchat.pid");
    assert_eq!(service::pid_file_path(&None, &Some("/home/c".to_string())), "/home/c/.local/run/p2pchat.pid");
}
