//! A local message bus between a background host process and its front ends:
//! length-prefixed framing, the server's connection registry, the client's
//! reconnect cycle, and the sequence-numbered pairing of replies with the
//! requests that wait for them.
//!
//! The library holds the rules and the state; the surrounding program owns the
//! sockets and the scheduler and reports what happened on them.

pub mod binding;
pub mod client;
pub mod correlation;
pub mod envelope;
pub mod fields;
pub mod framing;
pub mod ipc_server;
pub mod json;
pub mod passkey;
pub mod password;
pub mod server;
