//! In-memory fan-out core for a chat service: a registry of per-user bounded
//! broadcast channels, a publisher interface, and a stream adapter that turns
//! channel subscriptions into labeled, heartbeat-augmented wire frames.

pub mod adapter;
pub mod channel;
pub mod dto;
pub mod event;
pub mod json;
pub mod registry;

use vstd::prelude::*;

verus! {

/// Capacity of each per-user channel: a subscriber that falls more than this
/// many events behind the publish position loses the skipped events.
pub const CHANNEL_CAPACITY: usize = 256;

} // verus!
