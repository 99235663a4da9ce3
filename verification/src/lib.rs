//! The core of a WebSocket echo server: the per-connection echo handler as a
//! state machine, and the request routing table, with their proofs.
//!
//! Nothing here performs I/O. A driver owns the socket, performs each
//! [`connection::Action`] the handler asks for, and hands back what happened
//! as a [`connection::Event`].

pub mod config;
pub mod connection;
pub mod guarantees;
pub mod message;
pub mod router;
pub mod session;
