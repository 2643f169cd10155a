//! The guest agent: the process that serves the host from inside the VM.
//!
//! It mounts what the guest needs, listens for connections, and serves one
//! operation on each. Here is what it decides; the mounting, the sockets and
//! the child processes are the caller's.

pub mod control;
pub mod exec;
pub mod files;
pub mod mounts;
pub mod server;
