//! The typed messages the session exchanges with its transport.
//!
//! Inbound bytes are decoded by the transport collaborator before they reach
//! the core, so every variant here carries plain values only. Outbound
//! notifications are values as well: the core records them on the peer
//! buffer and the transport delivers them.

use vstd::prelude::*;

verus! {

/// An inbound one-way notification, already decoded by the transport.
#[derive(Debug, Clone, PartialEq, Eq)]
pub enum CoreNotification {
    /// Switch the process-wide tracing subsystem on or off.
    TracingConfig { enabled: bool },
    /// The one-time handshake that starts the session.
    ClientStarted { config_dir: Option<String>, client_extras_dir: Option<String> },
    /// Ask the core to report the machine's memory statistics.
    SendMemory {},
    /// Stands for the further notification kinds the dispatcher does not
    /// yet handle; they are accepted and ignored, a forward-compatibility
    /// seam rather than an error.
    Other {},
}

/// An inbound request; each one is answered with a value or a typed error.
#[derive(Debug, Clone, PartialEq, Eq)]
pub enum CoreRequest {
    GetConfig {},
    DebugGetContents {},
}

/// Memory statistics, as the external memory-stats provider reports them.
#[derive(Debug, Clone, Copy, PartialEq, Eq, Structural)]
pub struct Memory {
    pub total: u64,
    pub available: u64,
    pub free: u64,
}

/// An outbound notification, recorded by the core and delivered by the
/// transport through the peer.
#[derive(Debug, Clone, PartialEq, Eq, Structural)]
pub enum OutboundNotification {
    /// Emitted exactly once, right after the startup transition.
    ConfigStatus { success: bool },
    /// Emitted once per inbound `SendMemory` notification.
    SendMemory { total: u64, available: u64, free: u64 },
}

/// Work the core asks its caller to perform outside the locked region.
///
/// Querying the memory-stats provider may suspend, so it must not happen
/// while the session state is held; the caller performs the query and feeds
/// the result back through `Stadal::deliver_memory`.
#[derive(Debug, Clone, Copy, PartialEq, Eq, Structural)]
pub enum Action {
    FetchMemory,
}

/// A response payload for a request.
///
/// Both request handlers are stubs today and answer with a fixed integer;
/// the type leaves room for real payloads without changing the call
/// contract.
#[derive(Debug, Clone, PartialEq, Eq, Structural)]
pub enum ResponseValue {
    Int(i64),
}

/// The errors the core reports instead of aborting the process.
#[derive(Debug, Clone, PartialEq, Eq)]
pub enum CoreError {
    /// A message reached the dispatcher while the session was still waiting
    /// for the `client_started` handshake.
    NotReady,
    /// A second `client_started` handshake arrived.
    AlreadyStarted,
    /// The reserved channel for request-handling failures; the stub
    /// handlers never produce it.
    RemoteError { code: i64, message: String },
}

} // verus!
