//! A chat relay: the registry of connected clients, the fan-out of each
//! message to every client's outbound channel, the per-connection session
//! lifecycle, and the command language of the terminal client.
//!
//! The relay's state is owned, single-writer data. Callers that share it
//! between tasks guard it with one lock and keep each critical section to a
//! single call.

pub mod message;
pub mod channel;
pub mod registry;
pub mod broadcast;
pub mod session;
pub mod service;
pub mod text;
pub mod command;
pub mod laws;
