//! Verified core of an MQTT client: payload classification, a keyed snapshot
//! of last-seen values, the connection session state machine, a single-shot
//! cancellation gate, and the outbound status-event channel.
//!
//! The surrounding application supplies the broker I/O (connect, subscribe,
//! stream reads) and feeds the results back in as plain values; everything
//! that decides or computes lives here, with contracts.

pub mod classify;
pub mod events;
pub mod gate;
pub mod json;
pub mod request;
pub mod session;
pub mod snapshot;
pub mod worker;
