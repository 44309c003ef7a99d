# p2p_chat

A daemon-based peer-to-peer chat for Linux (peers reached with iroh), whose
logic is a Verus-verified library.

- `src/` — the verified library: the framing of messages between client and
  daemon, PID-file contents, file locations, the command schemas, the daemon's
  peer registry and connection admission, and every decision the client and
  the daemon take on the outcomes of their I/O (status checks, start and stop
  of the daemon, the interactive mode, answers to requests, log routing).
  Calls into outside crates (chrono, iroh, serde_json, shlex, std) stand
  behind small trusted items whose contracts are documented where they are
  declared.
- `app/` — the program around it: command-line parsing with clap, sockets and
  files, the iroh endpoint, the terminal line editor and logging.
- `tests/` — tests of the library on concrete values.

Verify with Verus on `src/lib.rs`; the laws the library keeps are the public
`lemma_*` proof functions and the `ensures` clauses of its functions.
