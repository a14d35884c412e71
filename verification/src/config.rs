//! How a debug adapter is reached and what is asked of it.

use vstd::prelude::*;

verus! {

/// The channel over which the adapter speaks.
#[derive(Copy, Clone, Debug, PartialEq, Eq, Structural)]
pub enum DebugConnectionType {
    /// A loopback socket that the adapter opens after it was started.
    TCP,
    /// The adapter's own standard streams.
    STDIO,
}

/// Whether the adapter starts the debuggee or joins a running one.
#[derive(Copy, Clone, Debug, PartialEq, Eq, Structural)]
pub enum DebugRequestType {
    Launch,
    Attach,
}

/// Arguments that only the adapter understands.
#[derive(Clone, Debug)]
pub struct DebugRequestArgs {
    pub args: serde_json::Value,
}

/// The configuration of one adapter session.
#[derive(Clone, Debug)]
pub struct DebugAdapterConfig {
    /// The adapter's id, sent with `initialize`.
    pub id: String,
    pub connection: DebugConnectionType,
    /// The loopback port; read only where `connection` is `TCP`.
    pub port: u16,
    pub request: DebugRequestType,
    pub request_args: Option<DebugRequestArgs>,
}

} // verus!
