//! The core of a Debug Adapter Protocol client: the decisions a client takes
//! between the wire and the host application, with every function verified.
//!
//! Nothing here reads a socket or awaits a channel. The host performs the
//! outside work and hands plain values in; each function states in its contract
//! what it returns or changes.

pub mod bootstrap;
pub mod client;
pub mod config;
pub mod json;
pub mod pending;
pub mod protocol;
pub mod reply;
pub mod router;
pub mod thread_state;
