//! The description of the one render pipeline.

use vstd::prelude::*;
use crate::backend::default_color_writes;
use crate::backend::COLOR_WRITES_ALL;
use crate::surface::FormatId;
use crate::surface::SurfaceConfig;

verus! {

/// How a shader stage finds its entry point.
#[derive(Clone, Copy, Debug, PartialEq, Eq, Structural)]
pub enum EntryPoint {
    /// The module's only entry point of the stage.
    Auto,
}

/// How the vertices are assembled into primitives.
#[derive(Clone, Copy, Debug, PartialEq, Eq, Structural)]
pub enum Topology {
    PointList,
    LineList,
    LineStrip,
    TriangleList,
    TriangleStrip,
}

/// The winding order of a front face.
#[derive(Clone, Copy, Debug, PartialEq, Eq, Structural)]
pub enum FrontFace {
    Ccw,
    Cw,
}

/// Which faces are discarded.
#[derive(Clone, Copy, Debug, PartialEq, Eq, Structural)]
pub enum CullMode {
    Nothing,
    Front,
    Back,
}

/// How a fragment is combined with the pixel already there.
#[derive(Clone, Copy, Debug, PartialEq, Eq, Structural)]
pub enum BlendMode {
    Replace,
    /// Source-over blending with straight alpha.
    AlphaBlending,
    PremultipliedAlphaBlending,
}

/// The colour target of the fragment stage.
#[derive(Clone, Copy, Debug, PartialEq, Eq, Structural)]
pub struct ColorTarget {
    pub format: FormatId,
    pub blend: BlendMode,
    pub write_mask: u32,
}

/// Everything that determines the render pipeline. The fragment stage has
/// exactly one colour target, `target`.
#[derive(Clone, Copy, Debug, PartialEq, Eq, Structural)]
pub struct PipelineDesc {
    pub vertex_entry: EntryPoint,
    pub vertex_buffers: u32,
    pub fragment_entry: EntryPoint,
    pub target: ColorTarget,
    pub topology: Topology,
    pub front_face: FrontFace,
    pub cull_mode: CullMode,
    pub depth_stencil: bool,
    pub sample_count: u32,
    pub multiview: bool,
}

/// The pipeline that draws to a surface of the given format: entry points
/// found automatically, no vertex buffers, one alpha-blended colour target
/// with all channels written, a triangle list with default winding and no
/// culling, no depth or stencil, one sample, no multiview.
pub open spec fn standard_pipeline(format: FormatId) -> PipelineDesc {
    PipelineDesc {
        vertex_entry: EntryPoint::Auto,
        vertex_buffers: 0,
        fragment_entry: EntryPoint::Auto,
        target: ColorTarget {
            format,
            blend: BlendMode::AlphaBlending,
            write_mask: COLOR_WRITES_ALL,
        },
        topology: Topology::TriangleList,
        front_face: FrontFace::Ccw,
        cull_mode: CullMode::Nothing,
        depth_stencil: false,
        sample_count: 1,
        multiview: false,
    }
}

impl PipelineDesc {
    /// The description of the pipeline for a surface of the given format.
    pub fn for_format(format: FormatId) -> (r: Self)
        ensures
            r == standard_pipeline(format),
    {
        PipelineDesc {
            vertex_entry: EntryPoint::Auto,
            vertex_buffers: 0,
            fragment_entry: EntryPoint::Auto,
            target: ColorTarget {
                format,
                blend: BlendMode::AlphaBlending,
                write_mask: default_color_writes(),
            },
            topology: Topology::TriangleList,
            front_face: FrontFace::Ccw,
            cull_mode: CullMode::Nothing,
            depth_stencil: false,
            sample_count: 1,
            multiview: false,
        }
    }

    /// Whether a render pass on a surface with this configuration may use
    /// the pipeline: its colour target has the surface's format.
    pub open spec fn fits(&self, config: &SurfaceConfig) -> bool {
        self.target.format == config@.format
    }

    /// Tells whether the pipeline's colour target has the surface's format.
    pub fn matches_surface(&self, config: &SurfaceConfig) -> (r: bool)
        ensures
            r == self.fits(config),
    {
        self.target.format == config.format()
    }
}

/// A pipeline built for one format fits a configuration exactly when the
/// configuration has that format: a surface whose format changed without a
/// rebuilt pipeline is told apart by `matches_surface`.
pub proof fn lemma_pipeline_fits_only_its_format(format: FormatId, config: SurfaceConfig)
    ensures
        standard_pipeline(format).fits(&config) <==> config@.format == format,
{
}

} // verus!
