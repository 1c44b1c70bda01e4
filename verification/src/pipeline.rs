//! The render pipeline: one fixed configuration, built once for the format of
//! the surface and the layout of the vertex buffer.

use vstd::prelude::*;
use crate::vertex::{Vertex, VertexBuffer, VertexLayout};

verus! {

/// How vertices are assembled into primitives.
#[derive(Clone, Copy, Debug, PartialEq, Eq, Structural)]
pub enum Topology {
    PointList,
    LineList,
    LineStrip,
    TriangleList,
    TriangleStrip,
}

/// The winding order of a triangle that faces the viewer.
#[derive(Clone, Copy, Debug, PartialEq, Eq, Structural)]
pub enum FrontFace {
    CounterClockwise,
    Clockwise,
}

/// Which triangles are discarded before rasterisation.
#[derive(Clone, Copy, Debug, PartialEq, Eq, Structural)]
pub enum CullMode {
    Nothing,
    Front,
    Back,
}

/// How a fragment's colour is combined with what the target holds.
#[derive(Clone, Copy, Debug, PartialEq, Eq, Structural)]
pub enum Blend {
    /// The fragment replaces what was there.
    Replace,
    /// The fragment is laid over what was there by its alpha.
    AlphaBlending,
}

/// All four colour channels are written.
pub const WRITE_ALL: u32 = 0xF;

/// Everything the graphics API is told when the pipeline is created.
#[derive(Clone, Copy, Debug, PartialEq, Eq)]
pub struct PipelineDescription {
    /// The format of the one colour target: that of the surface.
    pub target_format: wgpu::TextureFormat,
    /// The shader's entry point for vertices.
    pub vertex_entry: &'static str,
    /// The shader's entry point for fragments.
    pub fragment_entry: &'static str,
    pub vertex_layout: VertexLayout,
    pub topology: Topology,
    pub front_face: FrontFace,
    pub cull_mode: CullMode,
    /// Samples per pixel; 1 is no multisampling.
    pub sample_count: u32,
    pub blend: Blend,
    /// The colour channels that are written, one bit each.
    pub write_mask: u32,
    /// Whether a depth or stencil attachment is used.
    pub depth_stencil: bool,
}

impl PipelineDescription {
    /// The fixed configuration: a list of triangles, counter-clockwise ones
    /// facing front, those facing back culled, one sample per pixel, colours
    /// replaced in all channels, no depth or stencil attachment, vertices laid
    /// out as the vertex buffer is.
    pub open spec fn fixed(self) -> bool {
        &&& self.vertex_entry@ == "vertex"@
        &&& self.fragment_entry@ == "fragment"@
        &&& self.vertex_layout == Vertex::layout_spec()
        &&& self.topology == Topology::TriangleList
        &&& self.front_face == FrontFace::CounterClockwise
        &&& self.cull_mode == CullMode::Back
        &&& self.sample_count == 1
        &&& self.blend == Blend::Replace
        &&& self.write_mask == WRITE_ALL
        &&& !self.depth_stencil
    }

    /// The fixed configuration for a surface of the given format, as a
    /// value.
    pub open spec fn standard(target_format: wgpu::TextureFormat) -> PipelineDescription {
        PipelineDescription {
            target_format,
            vertex_entry: "vertex",
            fragment_entry: "fragment",
            vertex_layout: Vertex::layout_spec(),
            topology: Topology::TriangleList,
            front_face: FrontFace::CounterClockwise,
            cull_mode: CullMode::Back,
            sample_count: 1,
            blend: Blend::Replace,
            write_mask: WRITE_ALL,
            depth_stencil: false,
        }
    }

    /// The description of the pipeline that draws to a surface of the given
    /// format.
    pub fn new(target_format: wgpu::TextureFormat) -> (description: PipelineDescription)
        ensures
            description == PipelineDescription::standard(target_format),
            description.fixed(),
    {
        PipelineDescription {
            target_format,
            vertex_entry: "vertex",
            fragment_entry: "fragment",
            vertex_layout: Vertex::layout(),
            topology: Topology::TriangleList,
            front_face: FrontFace::CounterClockwise,
            cull_mode: CullMode::Back,
            sample_count: 1,
            blend: Blend::Replace,
            write_mask: WRITE_ALL,
            depth_stencil: false,
        }
    }
}

/// A built pipeline together with the number of vertices it draws. Nothing
/// changes it once it is built.
#[derive(Clone, Copy, Debug)]
pub struct RenderPipeline {
    description: PipelineDescription,
    vertex_count: u32,
}

impl RenderPipeline {
    #[verifier::type_invariant]
    spec fn is_fixed(self) -> bool {
        self.description.fixed()
    }

    pub closed spec fn description_spec(self) -> PipelineDescription {
        self.description
    }

    pub closed spec fn vertex_count_spec(self) -> u32 {
        self.vertex_count
    }

    /// The pipeline for a surface of the given format and the given vertex
    /// buffer.
    pub fn build(target_format: wgpu::TextureFormat, buffer: &VertexBuffer) -> (pipeline: RenderPipeline)
        ensures
            pipeline.description_spec() == PipelineDescription::standard(target_format),
            pipeline.description_spec().fixed(),
            pipeline.vertex_count_spec() == buffer.vertex_count(),
    {
        RenderPipeline { description: PipelineDescription::new(target_format), vertex_count: buffer.count() }
    }

    pub fn description(&self) -> (description: PipelineDescription)
        ensures
            description == self.description_spec(),
            description.fixed(),
    {
        proof {
            use_type_invariant(self);
        }
        self.description
    }

    pub fn vertex_count(&self) -> (count: u32)
        ensures
            count == self.vertex_count_spec(),
    {
        self.vertex_count
    }
}

} // verus!
