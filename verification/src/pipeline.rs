use vstd::prelude::*;

use crate::surface::SurfaceConfig;

verus! {

/// An opaque handle to a pipeline stored in the registry.
///
/// Identifiers are assigned monotonically, are unique within one renderer,
/// and are never reused. Callers should treat the inner index as opaque and
/// only pass identifiers back to the renderer that issued them; `resolve`
/// refuses any identifier this registry never issued.
#[derive(Clone, Copy, Debug, PartialEq, Eq, Structural)]
pub struct RenderPipelineId(pub usize);

/// A stand-in for one external bind-group-layout descriptor.
///
/// The core never looks inside a bind group layout; it only counts how many
/// the caller supplied. The slot links the descriptor to the backend object
/// held by the driver layer.
#[derive(Clone, Copy, Debug, PartialEq, Eq, Structural)]
pub struct BindGroupLayout {
    pub slot: usize,
}

/// A pipeline layout handle: the record of how many bind group layouts the
/// pipeline was declared with (zero in the minimal case).
#[derive(Clone, Copy, Debug, PartialEq, Eq, Structural)]
pub struct PipelineLayout {
    pub group_count: usize,
}

/// A loaded shader module: the raw shading-language source text.
///
/// The text is opaque to the core beyond the convention that it declares the
/// two entry points `vs_main` and `fs_main`; the driver layer compiles it.
#[derive(Debug)]
pub struct ShaderModule {
    pub source: String,
}

/// The immutable record of one compiled render pipeline.
///
/// Every pipeline is compiled against the surface color format current at
/// creation, with fixed function state that the core never varies:
/// triangle-list topology, counter-clockwise front face, back-face culling,
/// filled polygons, no depth/stencil, single-sample.
#[derive(Debug)]
pub struct Pipeline {
    /// The opaque code of the color format the pipeline targets.
    pub target_format: u32,
    /// How many bind group layouts its layout was declared with.
    pub layout_groups: usize,
    /// The source text of the shader module it was compiled from.
    pub shader_source: String,
}

/// Whether `p` is the record that a creation call stores when the surface
/// configuration is `config`, the layout is `layout` and the shader module
/// holds the text `shader_text`.
pub open spec fn is_pipeline_record(
    p: Pipeline,
    config: SurfaceConfig,
    layout: PipelineLayout,
    shader_text: Seq<char>,
) -> bool {
    &&& p.target_format == config.format
    &&& p.layout_groups == layout.group_count
    &&& p.shader_source@ == shader_text
}

} // verus!
