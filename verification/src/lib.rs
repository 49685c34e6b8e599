//! A verified core for a queue-driven command dispatcher.
//!
//! Inbound interaction events arrive as queue messages; the library decides
//! which messages to claim, when to acknowledge them, how to route a decoded
//! invocation to a registered command, and what response a failed handler
//! owes the invoking user. The transport and the remote interaction API are
//! driven by an unverified shell that follows the decisions made here.

pub mod dispatch;
pub mod event;
pub mod laws;
pub mod publish;
pub mod registry;
pub mod routing;
