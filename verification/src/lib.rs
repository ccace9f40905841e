//! A lifecycle-gated RPC session core.
//!
//! The library models a session that refuses to expose its shared state
//! until a one-time `client_started` handshake arrives, then routes typed
//! notifications and requests to handlers against that state. Outbound
//! notifications are recorded on the session's peer buffer; the transport
//! layer drains and delivers them.

pub mod application;
pub mod laws;
pub mod messages;
pub mod tracing;
