//! Verified core of an FTP-style file-transfer server.
//!
//! The library holds the protocol logic that is worth proving: the command
//! router, the per-session state machine (authentication, working directory,
//! pending rename, representation type), the data-connection manager's
//! negotiation state and wire encoding, and the transfer orchestrator's
//! sequencing rules.  All I/O — the control socket, the data sockets, the
//! file system, credential lookup — is performed by the surrounding
//! application, which feeds results back into the state machine as plain
//! values.

pub mod commands;
pub mod datachan;
pub mod laws;
pub mod paths;
pub mod router;
pub mod session;
