//! A presentation engine for a single-window, single-device renderer.
//!
//! The engine owns the swapchain and every object whose count or size is
//! tied to it, synchronizes the CPU and GPU across frames, and detects and
//! recovers from swapchain invalidation (window resize, surface out of
//! date) without leaking resources.  All device and window traffic is
//! performed by an unverified shell; this crate holds the decisions: which
//! extent to create the swapchain at, how many images to expect, which
//! command buffer to submit for an acquired image, and when to tear the
//! bundle down and rebuild it.

use vstd::prelude::*;

pub mod bundle;
pub mod handles;
pub mod input;
pub mod pool;
pub mod presenter;
pub mod surface;
pub mod uniform;

verus! {

/// Final teardown hook.  Every engine object releases its resources when
/// the owning value is dropped by the shell, so there is nothing left to
/// do here.
pub fn cleanup() {
}

} // verus!
