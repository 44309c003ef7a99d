//! Verified core of a daemon-based peer-to-peer chat: wire framing between the
//! client and the daemon, PID-file contents, runtime paths, command schemas,
//! the daemon's peer bookkeeping and the decisions taken around them.

pub mod text;
pub mod io_kind;
pub mod socket;
pub mod number;
pub mod pid;
pub mod paths;
pub mod cli_interface;
pub mod schemas;
pub mod cli;
pub mod cli_schema;
pub mod library;
pub mod clock;
pub mod message;
pub mod types;
pub mod ipc;
pub mod daemon;
pub mod ticket;
pub mod client;
pub mod cli_main;
pub mod service;
pub mod logger;
