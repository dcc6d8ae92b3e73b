//! Decision logic of a GPU rendering bootstrap: physical-device selection,
//! swapchain negotiation, the per-frame scheduling state machine, and the
//! ordering rules for swapchain recreation and teardown.
//!
//! The graphics API itself is driven by an unverified front end; this crate
//! holds every decision that can be stated over plain values, with contracts
//! that pin the chosen device, the negotiated extent and image count, the
//! round-robin frame protocol, and the destruction order.

pub mod capabilities;
pub mod error;
pub mod frame;
pub mod pipeline;
pub mod selection;
pub mod swapchain;
pub mod teardown;

use vstd::prelude::*;

verus! {

/// Number of frame slots whose GPU work may be outstanding at once.
pub const MAX_FRAMES_IN_FLIGHT: usize = 3;

} // verus!
