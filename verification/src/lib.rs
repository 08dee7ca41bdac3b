//! Frame lifecycle and GPU resource management for a real-time rendering
//! host: surface reconfiguration, depth-buffer lifecycle, uniform-block
//! synchronization, two-pass command-stream composition, and frame timing.
//!
//! The library owns the decisions and the data of the frame loop; the
//! surrounding binary performs the device, window, and audio calls and
//! feeds their outcomes back in as plain values.

pub mod audio;
pub mod clock;
pub mod depth;
pub mod input;
pub mod mesh;
pub mod orchestrator;
pub mod passes;
pub mod pipelines;
pub mod surface;
pub mod uniform;

use vstd::prelude::*;

verus! {

/// Clamp a requested surface dimension to the minimum the presentation
/// API accepts: a zero-sized surface is invalid, so zero becomes one.
pub open spec fn clamp_dim_spec(d: u32) -> u32 {
    if d == 0 {
        1u32
    } else {
        d
    }
}

/// Executable form of [`clamp_dim_spec`].
pub fn clamp_dim(d: u32) -> (r: u32)
    ensures
        r == clamp_dim_spec(d),
        r >= 1,
{
    if d == 0 {
        1
    } else {
        d
    }
}

} // verus!
