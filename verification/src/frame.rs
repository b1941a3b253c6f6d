use vstd::prelude::*;

use core::ops::Range;

use crate::color::Color;
use crate::error::RenderError;
use crate::pipeline::RenderPipelineId;

verus! {

/// The frame recorder's state. Exactly one frame may be in flight, and it
/// steps strictly through `Idle -> Acquired -> PassOpen -> Submitted ->
/// Idle`; every operation invoked out of order is refused with an error and
/// leaves the state unchanged.
#[derive(Clone, Copy, Debug, PartialEq, Eq, Structural)]
pub enum FrameState {
    /// No frame is in flight; pipelines may be created and the surface
    /// resized.
    Idle,
    /// The next presentable image has been acquired.
    Acquired,
    /// A render pass is open and commands are being recorded.
    PassOpen,
    /// The recorded commands have been submitted; the frame awaits
    /// presentation.
    Submitted,
}

/// One recorded render-pass command.
#[derive(Debug)]
pub enum PassCommand {
    /// Make the pipeline with this identifier active for subsequent draws.
    SetPipeline(RenderPipelineId),
    /// Draw this range of vertices and instances with the active pipeline.
    /// No vertex buffers are ever bound, so the geometry must originate in
    /// the vertex shader.
    Draw { vertices: Range<u32>, instances: Range<u32> },
}

/// Whether every pipeline bound in `cmds` exists in a registry that holds
/// `pipeline_count` pipelines.
pub open spec fn commands_valid(cmds: Seq<PassCommand>, pipeline_count: nat) -> bool {
    forall|i: int|
        0 <= i < cmds.len() ==> ((#[trigger] cmds[i]) matches PassCommand::SetPipeline(id)
            ==> id.0 < pipeline_count)
}

/// The restricted recording capability handed to the caller while a pass is
/// open.
///
/// It exposes exactly two operations: binding a pipeline by identifier and
/// issuing a draw. The builder is produced when the pass opens and is
/// consumed when the pass ends, so it cannot be used after the pass is over.
#[derive(Debug)]
pub struct RenderPassBuilder {
    /// The clear color the pass was opened with.
    pub clear_color: Color,
    /// How many pipelines the registry held when the pass opened; an
    /// identifier at or above this count is refused.
    pub pipeline_count: usize,
    /// The commands recorded so far, in order.
    pub commands: Vec<PassCommand>,
    /// Whether a pipeline has been bound yet in this pass.
    pub bound: bool,
}

impl RenderPassBuilder {
    /// Every recorded bind refers to an existing pipeline, and `bound` says
    /// exactly whether any bind has been recorded.
    pub open spec fn wf(&self) -> bool {
        &&& commands_valid(self.commands@, self.pipeline_count as nat)
        &&& (self.bound <==> exists|i: int|
            0 <= i < self.commands@.len() && (#[trigger] self.commands@[i]) is SetPipeline)
    }

    /// Sets the active render pipeline for subsequent draw calls.
    ///
    /// An identifier the registry never issued is refused with
    /// `InvalidHandle` and records nothing.
    pub fn set_pipeline(&mut self, id: RenderPipelineId) -> (r: Result<(), RenderError>)
        ensures
            id.0 < old(self).pipeline_count ==> {
                &&& r is Ok
                &&& final(self).commands@ == old(self).commands@.push(
                    PassCommand::SetPipeline(id),
                )
                &&& final(self).bound
                &&& final(self).pipeline_count == old(self).pipeline_count
                &&& final(self).clear_color == old(self).clear_color
            },
            id.0 >= old(self).pipeline_count ==> r == Err::<(), RenderError>(
                RenderError::InvalidHandle,
            ) && *final(self) == *old(self),
            old(self).wf() ==> final(self).wf(),
    {
        if id.0 < self.pipeline_count {
            self.commands.push(PassCommand::SetPipeline(id));
            self.bound = true;
            proof {
                let oldc = old(self).commands@;
                let newc = self.commands@;
                if old(self).wf() {
                    assert forall|i: int|
                        0 <= i < newc.len() implies ((#[trigger] newc[i])
                        matches PassCommand::SetPipeline(pid) ==> pid.0
                        < self.pipeline_count) by {
                        if i < oldc.len() {
                            assert(newc[i] == oldc[i]);
                        }
                    }
                    assert(newc[oldc.len() as int] is SetPipeline);
                }
            }
            Ok(())
        } else {
            Err(RenderError::InvalidHandle)
        }
    }

    /// Records a draw of the given vertex and instance ranges against the
    /// currently bound pipeline.
    ///
    /// Drawing before any pipeline is bound is a contract violation at the
    /// GPU level; the builder refuses it deterministically with
    /// `NoPipelineBound` and records nothing.
    pub fn draw(&mut self, vertices: Range<u32>, instances: Range<u32>) -> (r: Result<
        (),
        RenderError,
    >)
        ensures
            old(self).bound ==> {
                &&& r is Ok
                &&& final(self).commands@ == old(self).commands@.push(
                    PassCommand::Draw { vertices, instances },
                )
                &&& final(self).bound
                &&& final(self).pipeline_count == old(self).pipeline_count
                &&& final(self).clear_color == old(self).clear_color
            },
            !old(self).bound ==> r == Err::<(), RenderError>(RenderError::NoPipelineBound)
                && *final(self) == *old(self),
            old(self).wf() ==> final(self).wf(),
    {
        if self.bound {
            self.commands.push(PassCommand::Draw { vertices, instances });
            proof {
                let oldc = old(self).commands@;
                let newc = self.commands@;
                if old(self).wf() {
                    assert forall|i: int|
                        0 <= i < newc.len() implies ((#[trigger] newc[i])
                        matches PassCommand::SetPipeline(pid) ==> pid.0
                        < self.pipeline_count) by {
                        if i < oldc.len() {
                            assert(newc[i] == oldc[i]);
                        }
                    }
                    // `bound` was already true, so some earlier command is a
                    // bind, and the push leaves it in place.
                    let w = choose|i: int| 0 <= i < oldc.len() && (#[trigger] oldc[i]) is SetPipeline;
                    assert(newc[w] == oldc[w]);
                }
            }
            Ok(())
        } else {
            Err(RenderError::NoPipelineBound)
        }
    }
}

/// The model of one submitted frame: the clear color its single color
/// attachment was cleared to (with store enabled, so the result is kept for
/// presentation) and the command stream recorded into its pass, in order.
#[derive(Debug)]
pub struct FrameReport {
    pub clear_color: Color,
    pub commands: Vec<PassCommand>,
}

} // verus!
