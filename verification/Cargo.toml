[package]
name = "p2p_chat"
version = "0.1.0"
edition = "2021"
publish = false

[dependencies]
chrono = { version = "=0.4.45", default-features = false, features = ["clock", "std"] }
clap = { version = "=4.6.7", default-features = false, features = ["std", "derive", "help", "usage", "error-context"] }
flexi_logger = { version = "=0.31.10", default-features = false }
iroh = { version = "=0.98.2", default-features = false, features = ["tls-ring"] }
log = "=0.4.35"
nix = { version = "=0.31.3", features = ["signal", "process"] }
rustyline-async = "=0.4.9"
serde = { version = "=1.0.229", features = ["derive"] }
serde_json = "=1.0.154"
shlex = "=1.3.0"
thiserror = "=2.0.21"
tokio = { version = "=1.54.1", features = ["rt-multi-thread", "macros", "net", "io-util", "sync", "signal", "time"] }
