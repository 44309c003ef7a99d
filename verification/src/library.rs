//! A simple shared layer: command schema, PID file and
//! socket handling.

pub mod pid;
pub mod protocol;
pub mod socket;
