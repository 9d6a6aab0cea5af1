//! The fixed render pipeline, as a plain configuration that a graphics backend
//! turns into its pipeline object for one target pixel format.

use vstd::prelude::*;

use crate::layout::{
    geometry_attributes, geometry_vertex_layout, instance_attributes, instance_record_layout,
    VertexBufferLayout, VertexStepMode, GEOMETRY_VERTEX_SIZE, INSTANCE_RECORD_SIZE,
};

verus! {

/// How vertices are assembled into primitives.
#[derive(Clone, Copy, Debug, PartialEq, Eq, Structural)]
pub enum PrimitiveTopology {
    PointList,
    LineList,
    LineStrip,
    TriangleList,
    TriangleStrip,
}

/// The winding order of a front-facing triangle.
#[derive(Clone, Copy, Debug, PartialEq, Eq, Structural)]
pub enum FrontFace {
    Ccw,
    Cw,
}

/// A side of a triangle.
#[derive(Clone, Copy, Debug, PartialEq, Eq, Structural)]
pub enum Face {
    Front,
    Back,
}

/// How a triangle is rasterized.
#[derive(Clone, Copy, Debug, PartialEq, Eq, Structural)]
pub enum PolygonMode {
    Fill,
    Line,
    Point,
}

/// How a fragment's color combines with the target's.
#[derive(Clone, Copy, Debug, PartialEq, Eq, Structural)]
pub enum BlendMode {
    /// The fragment's color and alpha replace the target's.
    Replace,
    AlphaBlending,
    PremultipliedAlphaBlending,
}

/// Write mask that writes red, green, blue and alpha.
pub const COLOR_WRITES_ALL: u32 = 15;

/// Sample mask that enables every sample.
pub const SAMPLE_MASK_ALL: u64 = 0xffff_ffff_ffff_ffff;

/// Shader entry point of the vertex stage.
pub const VERTEX_ENTRY_POINT: &'static str = "vs_main";

/// Shader entry point of the fragment stage.
pub const FRAGMENT_ENTRY_POINT: &'static str = "fs_main";

/// Everything the render pipeline fixes but the target's pixel format.
#[derive(Debug)]
pub struct PipelineConfig {
    pub vertex_entry_point: &'static str,
    pub fragment_entry_point: &'static str,
    /// The vertex buffer bindings, slot by slot.
    pub buffers: Vec<VertexBufferLayout>,
    pub topology: PrimitiveTopology,
    pub front_face: FrontFace,
    /// The face that is culled, if any.
    pub cull_mode: Option<Face>,
    pub polygon_mode: PolygonMode,
    /// Whether a depth/stencil attachment is used.
    pub depth_stencil: bool,
    pub sample_count: u32,
    pub sample_mask: u64,
    pub alpha_to_coverage: bool,
    /// Blending of the color target; `None` writes without blending.
    pub blend: Option<BlendMode>,
    pub write_mask: u32,
}

/// The pipeline that draws instanced quads: geometry at binding 0, instance
/// records at binding 1, counter-clockwise triangles with back faces culled,
/// solid fill, no depth or stencil, one sample, colors replaced in full.
pub fn pipeline_config() -> (r: PipelineConfig)
    ensures
        r.vertex_entry_point@ == VERTEX_ENTRY_POINT@,
        r.fragment_entry_point@ == FRAGMENT_ENTRY_POINT@,
        r.buffers.len() == 2,
        r.buffers[0].array_stride == GEOMETRY_VERTEX_SIZE,
        r.buffers[0].step_mode == VertexStepMode::Vertex,
        r.buffers[0].attributes@ == geometry_attributes(),
        r.buffers[1].array_stride == INSTANCE_RECORD_SIZE,
        r.buffers[1].step_mode == VertexStepMode::Instance,
        r.buffers[1].attributes@ == instance_attributes(),
        r.topology == PrimitiveTopology::TriangleList,
        r.front_face == FrontFace::Ccw,
        r.cull_mode == Some(Face::Back),
        r.polygon_mode == PolygonMode::Fill,
        !r.depth_stencil,
        r.sample_count == 1,
        r.sample_mask == SAMPLE_MASK_ALL,
        !r.alpha_to_coverage,
        r.blend == Some(BlendMode::Replace),
        r.write_mask == COLOR_WRITES_ALL,
{
    let buffers = vec![geometry_vertex_layout(), instance_record_layout()];
    PipelineConfig {
        vertex_entry_point: VERTEX_ENTRY_POINT,
        fragment_entry_point: FRAGMENT_ENTRY_POINT,
        buffers,
        topology: PrimitiveTopology::TriangleList,
        front_face: FrontFace::Ccw,
        cull_mode: Some(Face::Back),
        polygon_mode: PolygonMode::Fill,
        depth_stencil: false,
        sample_count: 1,
        sample_mask: SAMPLE_MASK_ALL,
        alpha_to_coverage: false,
        blend: Some(BlendMode::Replace),
        write_mask: COLOR_WRITES_ALL,
    }
}

} // verus!
