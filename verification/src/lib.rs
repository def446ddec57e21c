//! Core of an IPC server that serves one root service object to many clients
//! over a choice of transports (vsock, a pre-bound socket, a Unix-domain
//! bootstrap pair, or an IP address), multiplexing client sessions through a
//! bounded worker pool.
//!
//! This crate holds the verified decision core: endpoint validation, the
//! session registry, the worker-pool bound, and the lifecycle state machine
//! that governs `start`, `join` and `shutdown`. The surrounding process drives
//! the core: it performs the socket and thread operations and feeds their
//! outcomes back in as plain values.

pub mod error;
pub mod fdmode;
pub mod lifecycle;
pub mod pool;
pub mod registry;
pub mod server;
pub mod transport;
