//! A background alarm-clock engine: a one-shot wake event drives a ring,
//! snooze, re-ring cycle with a bounded retry count, while state changes
//! are exchanged with a remote peer over a lightweight UDP parameter
//! protocol.
//!
//! The crate holds the verified core: the wire codec for time values
//! ([`codec`]), the shared state and the cancellable-timer substrate
//! ([`types`]), the scheduling state machine ([`timer`]), the parameter
//! router and outbound framing ([`osc`]), and the version comparison of
//! the update check ([`version`]). Socket, clock, task and file effects
//! stay with the caller, which feeds their results back in as plain
//! values.

pub mod codec;
pub mod osc;
pub mod timer;
pub mod types;
pub mod version;
