//! Core logic of a controller-battery monitoring daemon: matching discovered
//! devices against a configured allow-list, tracking battery and charging
//! state across polling cycles, and deciding when a watched device is gone.
//!
//! All I/O (the power-management bus, the notification service, configuration
//! files) lives outside this crate; these modules work on plain values.

pub mod config;
pub mod matcher;
pub mod tracker;
pub mod watch;

use vstd::prelude::*;

verus! {

/// Battery levels strictly below this value count as "low battery".
pub const LOW_BATTERY_THRESHOLD: u32 = 6;

} // verus!
