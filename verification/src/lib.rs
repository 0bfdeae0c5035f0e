//! Client library for a topic/channel-oriented real-time messaging server.
//!
//! The verified core models the session layer (frame multiplexing, reply
//! correlation, heartbeat), the per-topic channel state machine, the
//! reconnection supervisor with exponential backoff, a backpressure-aware
//! batching sensor stream, and a call-session event translator.  The
//! surrounding runtime (sockets, timers, tasks) carries these decisions out
//! and hands their outcomes back.

use vstd::prelude::*;

pub mod call;
pub mod channel;
pub mod client;
pub mod config;
pub mod error;
pub mod json;
pub mod models;
pub mod platform;
pub mod sensor;
pub mod session;
pub mod text;

pub use call::CallSession;
pub use channel::PhoenixChannel;
pub use client::SensoctoClient;
pub use config::{SensoctoConfig, SensorConfig};
pub use error::SensoctoError;
pub use sensor::SensorStream;
pub use session::PhoenixSocket;

verus! {

/// Returns the version of this library.
pub fn version() -> (r: &'static str)
    ensures
        r@ == "0.1.0"@,
{
    "0.1.0"
}

} // verus!
