//! The depth buffer's lifecycle.
//!
//! The depth target is dimensioned to exactly match the current surface
//! configuration. Depth textures cannot be resized in place on the
//! target class of graphics APIs, so any dimension change requires a
//! full rebuild, performed in the same event-handling step as the
//! surface reconfiguration so that the next frame's scene pass always
//! sees matching dimensions.

use crate::surface::SurfaceConfig;
use vstd::prelude::*;

verus! {

/// The fixed texel format of the depth buffer: one 32-bit
/// floating-point depth channel, no stencil.
#[derive(Clone, Copy, PartialEq, Eq, Structural, Debug)]
pub enum DepthFormat {
    Depth32Float,
}

/// Description of the depth texture and its view. A fresh value stands
/// for a freshly allocated texture; the surrounding binary allocates
/// the device object from these fields.
pub struct DepthTarget {
    pub width: u32,
    pub height: u32,
    pub format: DepthFormat,
    pub mip_level_count: u32,
    pub sample_count: u32,
}

impl DepthTarget {
    /// Every depth target has the fixed format, a single mip level and
    /// a single sample.
    pub open spec fn wf(self) -> bool {
        &&& self.format == DepthFormat::Depth32Float
        &&& self.mip_level_count == 1
        &&& self.sample_count == 1
    }

    /// The one target `rebuild` can produce for given dimensions.
    pub open spec fn rebuild_spec(width: u32, height: u32) -> DepthTarget {
        DepthTarget {
            width,
            height,
            format: DepthFormat::Depth32Float,
            mip_level_count: 1,
            sample_count: 1,
        }
    }

    /// The dimension-match invariant: the depth target is exactly as
    /// large as the surface the scene pass draws to.
    pub open spec fn matches_surface(self, cfg: SurfaceConfig) -> bool {
        self.width == cfg.width && self.height == cfg.height
    }

    /// Allocate a new depth target sized to the given dimensions. There
    /// is no incremental resize: the previous target is discarded whole.
    pub fn rebuild(width: u32, height: u32) -> (r: DepthTarget)
        ensures
            r == DepthTarget::rebuild_spec(width, height),
            r.wf(),
    {
        DepthTarget {
            width,
            height,
            format: DepthFormat::Depth32Float,
            mip_level_count: 1,
            sample_count: 1,
        }
    }
}

} // verus!
