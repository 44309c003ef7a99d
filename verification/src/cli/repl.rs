//! The interactive mode of the client with `peer` commands: what each command leads to.

use vstd::prelude::*;
use crate::cli_schema::{InteractiveCommand, PeerCmd};

verus! {

/// The prompt of the interactive mode.
pub const PROMPT: &'static str = "> ";

/// The line shown when a line cannot be split into words.
pub const SPLIT_FAILURE_TEXT: &'static str = "shlex couldn't parse the command line: check quotes and escaping";

/// The line shown on Ctrl+C.
pub const INTERRUPT_TEXT: &'static str = "Use 'quit' command to exit";

/// The line shown when the interactive mode ends.
pub const EXIT_TEXT: &'static str = "Exiting repl mode...";

/// What a command of the interactive mode leads to.
#[derive(Debug)]
pub enum ReplStep {
    /// Show the exit line and leave.
    Quit,
    /// Send this peer command to the daemon, show its answer, and go on.
    Peer(PeerCmd),
}

/// What a command of the interactive mode leads to.
pub fn repl_step(command: InteractiveCommand) -> (r: ReplStep)
    ensures
        match command {
            InteractiveCommand::Quit => r is Quit,
            InteractiveCommand::Peer(p) => r is Peer && r->Peer_0 == p,
        },
{
    match command {
        InteractiveCommand::Quit => ReplStep::Quit,
        InteractiveCommand::Peer(p) => ReplStep::Peer(p),
    }
}

} // verus!
