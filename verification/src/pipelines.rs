//! Descriptions of the fixed pipeline state and resource bindings.
//!
//! The pipeline is created once at startup; what matters to the frame
//! lifecycle is the fixed state it bakes in: back-face culling with a
//! counter-clockwise front face, a standard closer-wins depth test with
//! writes enabled against the fixed depth format, and the vertex layout
//! of the mesh. The surrounding binary realizes these descriptions
//! against the device, together with the two precompiled shader
//! modules, whose entry-point name is a fixed contract with the asset
//! build step.

use crate::depth::DepthFormat;
use crate::depth::DepthTarget;
use crate::mesh::Vertex;
use crate::mesh::VertexBufferLayoutDesc;
use crate::mesh::vertex_attributes_spec;
use crate::mesh::VERTEX_STRIDE_BYTES;
use vstd::prelude::*;

verus! {

/// The depth comparison the pipeline uses: closer wins.
#[derive(Clone, Copy, PartialEq, Eq, Structural, Debug)]
pub enum DepthCompare {
    Less,
}

/// Rasterizer state: which faces are discarded and which winding is
/// front-facing.
#[derive(Clone, Copy, PartialEq, Eq, Structural, Debug)]
pub struct PrimitiveDesc {
    pub cull_back_faces: bool,
    pub front_face_ccw: bool,
}

/// Depth/stencil state bound by the main pipeline.
#[derive(Clone, Copy, PartialEq, Eq, Structural, Debug)]
pub struct DepthStencilDesc {
    pub format: DepthFormat,
    pub depth_write_enabled: bool,
    pub compare: DepthCompare,
}

/// The kind of resource a shader binding expects.
#[derive(Clone, Copy, PartialEq, Eq, Structural, Debug)]
pub enum BindingKind {
    UniformBuffer,
}

/// One entry of the bind group layout.
#[derive(Clone, Copy, PartialEq, Eq, Structural, Debug)]
pub struct BindGroupEntryDesc {
    pub binding: u32,
    pub visible_to_all_stages: bool,
    pub kind: BindingKind,
}

/// The main pipeline's fixed state.
pub struct PipelineDesc {
    pub primitive: PrimitiveDesc,
    pub depth_stencil: DepthStencilDesc,
    pub vertex_layout: VertexBufferLayoutDesc,
    /// The format token of the surface the fragment stage targets.
    pub surface_format: u32,
}

/// Allocate the description of a fresh depth texture and its view for
/// the given dimensions: the fixed depth format, one mip level, one
/// sample.
pub fn create_depth_texture(width: u32, height: u32) -> (r: DepthTarget)
    ensures
        r == DepthTarget::rebuild_spec(width, height),
        r.wf(),
{
    DepthTarget::rebuild(width, height)
}

/// Describe the main pipeline for a surface of the given format:
/// back-face culling with counter-clockwise front faces, depth test
/// `Less` with writes enabled against the fixed depth format, and the
/// mesh's vertex layout.
pub fn create_main_pipeline(surface_format: u32) -> (r: PipelineDesc)
    ensures
        r.primitive == (PrimitiveDesc { cull_back_faces: true, front_face_ccw: true }),
        r.depth_stencil == (DepthStencilDesc {
            format: DepthFormat::Depth32Float,
            depth_write_enabled: true,
            compare: DepthCompare::Less,
        }),
        r.vertex_layout.array_stride == VERTEX_STRIDE_BYTES,
        r.vertex_layout.attributes@ == vertex_attributes_spec(),
        r.surface_format == surface_format,
{
    PipelineDesc {
        primitive: PrimitiveDesc { cull_back_faces: true, front_face_ccw: true },
        depth_stencil: DepthStencilDesc {
            format: DepthFormat::Depth32Float,
            depth_write_enabled: true,
            compare: DepthCompare::Less,
        },
        vertex_layout: Vertex::desc(),
        surface_format,
    }
}

/// Describe the single binding the shaders see: the uniform block at
/// binding zero, visible to every shader stage.
pub fn create_buffer_descriptors() -> (r: BindGroupEntryDesc)
    ensures
        r == (BindGroupEntryDesc {
            binding: 0,
            visible_to_all_stages: true,
            kind: BindingKind::UniformBuffer,
        }),
{
    BindGroupEntryDesc { binding: 0, visible_to_all_stages: true, kind: BindingKind::UniformBuffer }
}

} // verus!
