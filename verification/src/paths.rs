//! Paths to the files the application uses.
//!
//! Socket and PID file: `$XDG_RUNTIME_DIR/p2pchat/daemon.{sock,pid}`, falling
//! back to `~/.cache/p2pchat/`. Logs: `$XDG_STATE_HOME/p2pchat/*.log`, falling
//! back to `~/.local/state/p2pchat/`. Durable data: `$XDG_DATA_HOME/p2pchat/`,
//! falling back to `~/.local/share/p2pchat/`.
//!
//! The environment is handed in as values: a variable that is set is `Some`.

use vstd::prelude::*;
use crate::text::{chars_of, push_char};

verus! {

/// The environment variables that decide where the application's files live.
#[derive(Clone, Debug)]
pub struct PathEnv {
    pub xdg_runtime_dir: Option<String>,
    pub xdg_state_home: Option<String>,
    pub xdg_data_home: Option<String>,
    pub home: Option<String>,
}

/// `base.join(p)` for Unix paths: an absolute `p` replaces `base`; otherwise
/// `p` is appended, after a `/` unless `base` is empty or already ends in one.
pub open spec fn join(base: Seq<char>, p: Seq<char>) -> Seq<char> {
    if p.len() > 0 && p[0] == '/' {
        p
    } else if base.len() > 0 && base.last() != '/' {
        base + seq!['/'] + p
    } else {
        base + p
    }
}

/// `Path::new(base).join(p)`.
pub fn join_path(base: &str, p: &str) -> (r: String)
    ensures
        r@ == join(base@, p@),
{
    let pc = chars_of(p);
    if pc.len() > 0 && pc[0] == '/' {
        return p.to_owned();
    }
    let bc = chars_of(base);
    let mut r = base.to_owned();
    if bc.len() > 0 && bc[bc.len() - 1] != '/' {
        push_char(&mut r, '/');
    }
    r.append(p);
    r
}

/// A variable's value is used as a directory when it is set, non-empty and absolute.
pub open spec fn usable_dir(v: Option<String>) -> bool {
    v is Some && v.unwrap()@.len() > 0 && v.unwrap()@[0] == '/'
}

/// The directory named by a variable, or `fallback` under the home directory.
pub open spec fn dir_from(v: Option<String>, home: Option<String>, fallback: Seq<char>) -> Seq<char> {
    if usable_dir(v) {
        v.unwrap()@
    } else {
        join(home.unwrap()@, fallback)
    }
}

/// Whether a variable's value can be used as a directory (`usable_dir`).
pub fn is_usable_dir(v: &Option<String>) -> (r: bool)
    ensures
        r == usable_dir(*v),
{
    match v {
        Some(s) => {
            let cs = chars_of(s.as_str());
            cs.len() > 0 && cs[0] == '/'
        },
        None => false,
    }
}

/// The directory named by `var` if usable, else `fallback_under_home` under
/// the home directory, which must then be known.
pub fn dir_from_env_or_home(var: &Option<String>, home: &Option<String>, fallback_under_home: &str) -> (r: String)
    requires
        usable_dir(*var) || home is Some,
    ensures
        r@ == dir_from(*var, *home, fallback_under_home@),
{
    if is_usable_dir(var) {
        match var {
            Some(s) => s.clone(),
            None => String::new(),
        }
    } else {
        join_path(home_dir(home).as_str(), fallback_under_home)
    }
}

/// The home directory.
pub fn home_dir(home: &Option<String>) -> (r: String)
    requires
        home is Some,
    ensures
        r@ == home.unwrap()@,
{
    match home {
        Some(h) => h.clone(),
        None => String::new(),
    }
}

pub open spec fn spec_runtime_dir(env: PathEnv) -> Seq<char> {
    join(dir_from(env.xdg_runtime_dir, env.home, ".cache"@), "p2pchat"@)
}

pub open spec fn spec_state_dir(env: PathEnv) -> Seq<char> {
    join(dir_from(env.xdg_state_home, env.home, ".local/state"@), "p2pchat"@)
}

pub open spec fn spec_data_dir(env: PathEnv) -> Seq<char> {
    join(dir_from(env.xdg_data_home, env.home, ".local/share"@), "p2pchat"@)
}

/// Directory of the socket and the PID file.
pub fn runtime_dir(env: &PathEnv) -> (r: String)
    requires
        usable_dir(env.xdg_runtime_dir) || env.home is Some,
    ensures
        r@ == spec_runtime_dir(*env),
{
    let d = dir_from_env_or_home(&env.xdg_runtime_dir, &env.home, ".cache");
    join_path(d.as_str(), "p2pchat")
}

/// Directory of the log files.
pub fn state_dir(env: &PathEnv) -> (r: String)
    requires
        usable_dir(env.xdg_state_home) || env.home is Some,
    ensures
        r@ == spec_state_dir(*env),
{
    let d = dir_from_env_or_home(&env.xdg_state_home, &env.home, ".local/state");
    join_path(d.as_str(), "p2pchat")
}

/// Directory of durable application data.
pub fn data_dir(env: &PathEnv) -> (r: String)
    requires
        usable_dir(env.xdg_data_home) || env.home is Some,
    ensures
        r@ == spec_data_dir(*env),
{
    let d = dir_from_env_or_home(&env.xdg_data_home, &env.home, ".local/share");
    join_path(d.as_str(), "p2pchat")
}

/// Path of the daemon's socket.
pub fn daemon_socket(env: &PathEnv) -> (r: String)
    requires
        usable_dir(env.xdg_runtime_dir) || env.home is Some,
    ensures
        r@ == join(spec_runtime_dir(*env), "daemon.sock"@),
{
    let d = runtime_dir(env);
    join_path(d.as_str(), "daemon.sock")
}

/// Path of the daemon's PID file.
pub fn daemon_pidfile(env: &PathEnv) -> (r: String)
    requires
        usable_dir(env.xdg_runtime_dir) || env.home is Some,
    ensures
        r@ == join(spec_runtime_dir(*env), "daemon.pid"@),
{
    let d = runtime_dir(env);
    join_path(d.as_str(), "daemon.pid")
}

/// Where a log goes: `<directory>/<basename>.<suffix>`, with no timestamp in the name.
pub struct LogFileSpec {
    pub directory: String,
    pub basename: String,
    pub suffix: String,
}

/// The log file spec for logs named `basename`, in the state directory.
pub fn log_file_spec(env: &PathEnv, basename: &str) -> (r: LogFileSpec)
    requires
        usable_dir(env.xdg_state_home) || env.home is Some,
    ensures
        r.directory@ == spec_state_dir(*env),
        r.basename@ == basename@,
        r.suffix@ == "log"@,
{
    LogFileSpec { directory: state_dir(env), basename: basename.to_owned(), suffix: String::from_str("log") }
}

/// The daemon's log file.
pub fn daemon_log_file_spec(env: &PathEnv) -> (r: LogFileSpec)
    requires
        usable_dir(env.xdg_state_home) || env.home is Some,
    ensures
        r.directory@ == spec_state_dir(*env),
        r.basename@ == "daemon"@,
        r.suffix@ == "log"@,
{
    log_file_spec(env, "daemon")
}

/// The log file of the networking stack's records, beside the daemon's.
pub fn daemon_iroh_log_file_spec(env: &PathEnv) -> (r: LogFileSpec)
    requires
        usable_dir(env.xdg_state_home) || env.home is Some,
    ensures
        r.directory@ == spec_state_dir(*env),
        r.basename@ == "daemon-iroh"@,
        r.suffix@ == "log"@,
{
    log_file_spec(env, "daemon-iroh")
}

/// The client's log file.
pub fn cli_log_file_spec(env: &PathEnv) -> (r: LogFileSpec)
    requires
        usable_dir(env.xdg_state_home) || env.home is Some,
    ensures
        r.directory@ == spec_state_dir(*env),
        r.basename@ == "cli"@,
        r.suffix@ == "log"@,
{
    log_file_spec(env, "cli")
}

/// Law: the daemon's socket and PID file are two different files in one directory.
pub proof fn lemma_runtime_files_distinct(dir: Seq<char>)
    ensures
        join(dir, "daemon.sock"@) != join(dir, "daemon.pid"@),
{
    reveal_strlit("daemon.sock");
    reveal_strlit("daemon.pid");
    let a = join(dir, "daemon.sock"@);
    let b = join(dir, "daemon.pid"@);
    assert(a.len() != b.len() || a.last() != b.last());
}

} // verus!
