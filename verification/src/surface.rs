//! The presentable surface's configuration: dimensions and pixel format.
//!
//! The format is chosen once at startup from the device's supported
//! capabilities and held fixed; only the dimensions vary over the
//! session, driven exclusively by resize events. Requested dimensions
//! are clamped to a minimum of one, since a zero-sized surface is
//! invalid for the presentation API.

use crate::clamp_dim_spec;
use crate::clamp_dim;
use vstd::prelude::*;

verus! {

/// Configuration of the presentable surface. The `format` field is an
/// opaque token for the pixel format the device negotiated at startup;
/// the library never inspects it, only keeps it stable.
pub struct SurfaceConfig {
    pub width: u32,
    pub height: u32,
    pub format: u32,
}

impl SurfaceConfig {
    /// A valid surface is at least one pixel in each dimension.
    pub open spec fn wf(self) -> bool {
        self.width >= 1 && self.height >= 1
    }

    /// What `configure` does: clamp both dimensions, keep the format.
    pub open spec fn configure_spec(self, width: u32, height: u32) -> SurfaceConfig {
        SurfaceConfig {
            width: clamp_dim_spec(width),
            height: clamp_dim_spec(height),
            format: self.format,
        }
    }

    /// Initial configuration, from the startup window size and the
    /// format token the device negotiation settled on.
    pub fn new(width: u32, height: u32, format: u32) -> (r: SurfaceConfig)
        ensures
            r == (SurfaceConfig {
                width: clamp_dim_spec(width),
                height: clamp_dim_spec(height),
                format: format,
            }),
            r.wf(),
    {
        SurfaceConfig { width: clamp_dim(width), height: clamp_dim(height), format }
    }

    /// Apply a resize: both dimensions are clamped to a minimum of one
    /// before the configuration is handed to the live surface.
    pub fn configure(&mut self, width: u32, height: u32)
        ensures
            *final(self) == old(self).configure_spec(width, height),
            final(self).wf(),
    {
        self.width = clamp_dim(width);
        self.height = clamp_dim(height);
    }
}

/// Configuring twice with identical dimensions yields a configuration
/// identical to configuring once: the clamp and the assignment depend
/// only on the requested dimensions and the fixed format.
pub proof fn lemma_configure_idempotent(c: SurfaceConfig, width: u32, height: u32)
    ensures
        c.configure_spec(width, height).configure_spec(width, height) == c.configure_spec(
            width,
            height,
        ),
{
}

} // verus!
