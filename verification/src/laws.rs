use vstd::prelude::*;

use crate::color::Color;
use crate::frame::commands_valid;
use crate::frame::FrameReport;
use crate::frame::FrameState;
use crate::frame::RenderPassBuilder;
use crate::pipeline::is_pipeline_record;
use crate::pipeline::PipelineLayout;
use crate::pipeline::RenderPipelineId;
use crate::renderer::created_pipeline;
use crate::renderer::frame_acquired;
use crate::renderer::pass_ended;
use crate::renderer::pass_opened;
use crate::renderer::presented;
use crate::renderer::resized;
use crate::renderer::Renderer;
use crate::surface::SurfaceSize;

verus! {

/// The registry only ever grows: every entry present before an operation is
/// still there, unchanged, afterwards. Every operation of the renderer
/// satisfies this relation between its pre- and post-state.
pub open spec fn registry_extends(pre: Renderer, post: Renderer) -> bool {
    &&& post.pipelines@.len() >= pre.pipelines@.len()
    &&& forall|j: int|
        0 <= j < pre.pipelines@.len() ==> #[trigger] post.pipelines@[j] == pre.pipelines@[j]
}

/// Growing the registry is transitive: a chain of operations, each of which
/// only appends, in total only appends.
pub proof fn lemma_extends_trans(a: Renderer, b: Renderer, c: Renderer)
    requires
        registry_extends(a, b),
        registry_extends(b, c),
    ensures
        registry_extends(a, c),
{
    assert forall|j: int|
        0 <= j < a.pipelines@.len() implies #[trigger] c.pipelines@[j] == a.pipelines@[j] by {
        assert(b.pipelines@[j] == a.pipelines@[j]);
    }
}

/// A pipeline creation only appends to the registry.
pub proof fn lemma_create_extends(
    pre: Renderer,
    post: Renderer,
    id: RenderPipelineId,
    layout: PipelineLayout,
    shader_text: Seq<char>,
)
    requires
        created_pipeline(pre, post, id, layout, shader_text),
    ensures
        registry_extends(pre, post),
{
}

/// An operation that leaves the registry's contents as they were trivially
/// only appends; this covers resize and every frame-recording step.
pub proof fn lemma_unchanged_extends(pre: Renderer, post: Renderer)
    requires
        post.pipelines@ == pre.pipelines@,
    ensures
        registry_extends(pre, post),
{
}

/// Identifiers are issued strictly increasing: whatever operations lie
/// between two creations, the identifier issued later is strictly larger
/// than the one issued earlier. In particular identifiers issued by one
/// renderer are pairwise distinct and never reused.
pub proof fn lemma_issued_ids_strictly_increase(
    r0: Renderer,
    r1: Renderer,
    r2: Renderer,
    r3: Renderer,
    id1: RenderPipelineId,
    id2: RenderPipelineId,
    layout1: PipelineLayout,
    layout2: PipelineLayout,
    text1: Seq<char>,
    text2: Seq<char>,
)
    requires
        created_pipeline(r0, r1, id1, layout1, text1),
        registry_extends(r1, r2),
        created_pipeline(r2, r3, id2, layout2, text2),
    ensures
        id1.0 < id2.0,
{
}

/// An identifier stays valid and resolves to the same record for the life
/// of the registry: once issued, no later operation can change or remove
/// the entry it refers to.
pub proof fn lemma_issued_id_stable(r1: Renderer, r2: Renderer, id: RenderPipelineId)
    requires
        registry_extends(r1, r2),
        id.0 < r1.pipelines@.len(),
    ensures
        id.0 < r2.pipelines@.len(),
        r2.pipelines@[id.0 as int] == r1.pipelines@[id.0 as int],
{
}

/// The entry a creation stores under its issued identifier is exactly the
/// record of that call's arguments and the surface format current at
/// creation; `resolve` on the issued identifier therefore returns it.
pub proof fn lemma_resolve_returns_created(
    pre: Renderer,
    post: Renderer,
    id: RenderPipelineId,
    layout: PipelineLayout,
    shader_text: Seq<char>,
)
    requires
        created_pipeline(pre, post, id, layout, shader_text),
    ensures
        id.0 < post.pipelines@.len(),
        is_pipeline_record(post.pipelines@[id.0 as int], pre.config, layout, shader_text),
{
}

/// After a resize to a positive size, the stored configuration reports
/// exactly that width and height, it has positive area, the recorder is
/// still `Idle` — so the next frame's acquisition step is enabled — and the
/// pipelines are untouched.
pub proof fn lemma_resize_reports_size(pre: Renderer, post: Renderer, size: SurfaceSize)
    requires
        resized(pre, post, size),
        size.width > 0,
        size.height > 0,
    ensures
        post.config.width == size.width,
        post.config.height == size.height,
        post.config.well_formed(),
        post.config.format == pre.config.format,
        post.frame == FrameState::Idle,
        post.pipelines@ == pre.pipelines@,
{
}

/// One full successful frame follows exactly the cycle `Idle -> Acquired ->
/// PassOpen -> Submitted -> Idle`: it ends back at `Idle`, the registry and
/// the surface configuration come through untouched, and the submitted
/// report carries the pass's clear color and a command stream whose every
/// bind refers to a pipeline the registry really holds.
pub proof fn lemma_frame_cycle(
    r0: Renderer,
    r1: Renderer,
    r2: Renderer,
    r3: Renderer,
    r4: Renderer,
    clear_color: Color,
    opened: RenderPassBuilder,
    closed: RenderPassBuilder,
    rep: FrameReport,
)
    requires
        frame_acquired(r0, r1),
        pass_opened(r1, r2, clear_color, opened),
        pass_ended(r2, r3, closed, rep),
        presented(r3, r4),
    ensures
        r0.frame == FrameState::Idle,
        r4.frame == FrameState::Idle,
        r4.config == r0.config,
        r4.pipelines@ == r0.pipelines@,
        rep.clear_color == closed.clear_color,
        commands_valid(rep.commands@, r0.pipelines@.len()),
{
}

} // verus!
