use vstd::prelude::*;

use crate::color::Color;
use crate::error::RenderError;
use crate::frame::commands_valid;
use crate::frame::FrameReport;
use crate::frame::FrameState;
use crate::frame::PassCommand;
use crate::frame::RenderPassBuilder;
use crate::pipeline::is_pipeline_record;
use crate::pipeline::BindGroupLayout;
use crate::pipeline::Pipeline;
use crate::pipeline::PipelineLayout;
use crate::pipeline::RenderPipelineId;
use crate::pipeline::ShaderModule;
use crate::surface::clamp_dim;
use crate::surface::clamped_dim;
use crate::surface::PresentMode;
use crate::surface::SurfaceConfig;
use crate::surface::SurfaceSize;

verus! {

/// The renderer core: the surface configuration, the pipeline registry and
/// the frame recorder's state.
///
/// The driver layer owns the actual GPU device, queue and window surface; it
/// mirrors every decision recorded here (configure the surface, compile a
/// pipeline, encode and submit a pass) and reports outside outcomes back,
/// such as whether the next presentable image could be acquired.
pub struct Renderer {
    /// The stored surface configuration; reconfigured only by resize.
    pub config: SurfaceConfig,
    /// The pipeline registry: the record of every pipeline ever created, in
    /// creation order. The identifier issued for a pipeline is its position
    /// here, so entries are never removed or reordered.
    pub pipelines: Vec<Pipeline>,
    /// Where the current frame stands in the recording protocol.
    pub frame: FrameState,
}

/// The size the surface is configured with: the explicitly requested size if
/// one was given, otherwise the size the window reports.
pub open spec fn chosen_size(window_size: SurfaceSize, surface_size: Option<SurfaceSize>) -> SurfaceSize {
    match surface_size {
        Some(s) => s,
        None => window_size,
    }
}

/// One resize step: the stored width and height are replaced by the clamped
/// request, and nothing else changes — not the format, not the registry, not
/// the frame state.
pub open spec fn resized(pre: Renderer, post: Renderer, size: SurfaceSize) -> bool {
    &&& pre.frame == FrameState::Idle
    &&& post.config == (SurfaceConfig {
        width: clamped_dim(size.width),
        height: clamped_dim(size.height),
        ..pre.config
    })
    &&& post.pipelines@ == pre.pipelines@
    &&& post.frame == pre.frame
}

/// One pipeline creation step: the record built from the arguments and the
/// surface format current at creation is appended to the registry, every
/// earlier entry is untouched, and the issued identifier is the registry's
/// length before the append.
pub open spec fn created_pipeline(
    pre: Renderer,
    post: Renderer,
    id: RenderPipelineId,
    layout: PipelineLayout,
    shader_text: Seq<char>,
) -> bool {
    &&& pre.frame == FrameState::Idle
    &&& id.0 == pre.pipelines@.len()
    &&& post.pipelines@.len() == pre.pipelines@.len() + 1
    &&& forall|j: int|
        0 <= j < pre.pipelines@.len() ==> #[trigger] post.pipelines@[j] == pre.pipelines@[j]
    &&& is_pipeline_record(post.pipelines@[id.0 as int], pre.config, layout, shader_text)
    &&& post.config == pre.config
    &&& post.frame == pre.frame
}

/// The `Idle -> Acquired` step: the presentation engine supplied the next
/// image; configuration and registry are untouched.
pub open spec fn frame_acquired(pre: Renderer, post: Renderer) -> bool {
    &&& pre.frame == FrameState::Idle
    &&& post.config == pre.config
    &&& post.pipelines@ == pre.pipelines@
    &&& post.frame == FrameState::Acquired
}

/// The `Acquired -> PassOpen` step: a pass begins on the acquired image with
/// the given clear color, and the caller receives a fresh builder that has
/// recorded nothing and validates identifiers against the current registry.
pub open spec fn pass_opened(
    pre: Renderer,
    post: Renderer,
    clear_color: Color,
    b: RenderPassBuilder,
) -> bool {
    &&& pre.frame == FrameState::Acquired
    &&& post.config == pre.config
    &&& post.pipelines@ == pre.pipelines@
    &&& post.frame == FrameState::PassOpen
    &&& b.clear_color == clear_color
    &&& b.commands@ == Seq::<PassCommand>::empty()
    &&& !b.bound
    &&& b.pipeline_count as nat == pre.pipelines@.len()
}

/// The `PassOpen -> Submitted` step: the pass closes and its command stream,
/// every bind of which refers to an existing pipeline, is submitted to the
/// queue; the report carries exactly what was submitted.
pub open spec fn pass_ended(
    pre: Renderer,
    post: Renderer,
    b: RenderPassBuilder,
    rep: FrameReport,
) -> bool {
    &&& pre.frame == FrameState::PassOpen
    &&& commands_valid(b.commands@, pre.pipelines@.len())
    &&& post.config == pre.config
    &&& post.pipelines@ == pre.pipelines@
    &&& post.frame == FrameState::Submitted
    &&& rep.clear_color == b.clear_color
    &&& rep.commands@ == b.commands@
}

/// The `Submitted -> Idle` step: the frame's transient resources are
/// released and the recorder is ready for the next frame.
pub open spec fn presented(pre: Renderer, post: Renderer) -> bool {
    &&& pre.frame == FrameState::Submitted
    &&& post.config == pre.config
    &&& post.pipelines@ == pre.pipelines@
    &&& post.frame == FrameState::Idle
}

impl Renderer {
    /// Creates the renderer core for a surface whose adapter-preferred color
    /// format has the given opaque code.
    ///
    /// The surface is configured with the explicitly requested size if one
    /// was given, otherwise with the size the window reports; either way
    /// both dimensions are clamped to at least 1 (the zero-size policy, see
    /// [`clamped_dim`]). The presentation mode is always FIFO. The registry
    /// starts empty and no frame is in flight.
    ///
    /// Finding a compatible adapter and requesting the device and queue are
    /// fatal-on-failure steps of the driver layer; this core is only built
    /// once they have succeeded.
    pub fn new(format: u32, window_size: SurfaceSize, surface_size: Option<SurfaceSize>) -> (r:
        Renderer)
        ensures
            r.config == (SurfaceConfig {
                format,
                width: clamped_dim(chosen_size(window_size, surface_size).width),
                height: clamped_dim(chosen_size(window_size, surface_size).height),
                present_mode: PresentMode::Fifo,
            }),
            r.config.well_formed(),
            r.pipelines@ == Seq::<Pipeline>::empty(),
            r.frame == FrameState::Idle,
    {
        let size = match surface_size {
            Some(s) => s,
            None => window_size,
        };
        Renderer {
            config: SurfaceConfig {
                format,
                width: clamp_dim(size.width),
                height: clamp_dim(size.height),
                present_mode: PresentMode::Fifo,
            },
            pipelines: Vec::new(),
            frame: FrameState::Idle,
        }
    }

    /// Stores the new surface size, clamped to at least 1 per dimension (the
    /// zero-size policy), so the driver layer can reconfigure the physical
    /// surface to exactly this configuration.
    ///
    /// Resizing is only allowed between frames; pipelines are unaffected,
    /// since their layout depends only on the color format, which never
    /// changes.
    pub fn set_surface_size(&mut self, surface_size: SurfaceSize)
        requires
            old(self).frame == FrameState::Idle,
        ensures
            resized(*old(self), *final(self), surface_size),
            final(self).config.width == clamped_dim(surface_size.width),
            final(self).config.height == clamped_dim(surface_size.height),
            final(self).config.well_formed(),
    {
        self.config.width = clamp_dim(surface_size.width);
        self.config.height = clamp_dim(surface_size.height);
    }

    /// Wraps raw shading-language source text as a module the core can hand
    /// to pipeline creation. The text is opaque to the core; by convention
    /// it declares the entry points `vs_main` and `fs_main`.
    pub fn load_shader_from_memory(&self, shader: &str) -> (m: ShaderModule)
        ensures
            m.source@ == shader@,
    {
        ShaderModule { source: shader.to_owned() }
    }

    /// Builds a pipeline layout handle from the given sequence of external
    /// bind-group-layout descriptors (empty in the minimal case).
    pub fn create_pipeline_layout(&self, bind_group_layouts: &[BindGroupLayout]) -> (l:
        PipelineLayout)
        ensures
            l.group_count == bind_group_layouts@.len(),
    {
        PipelineLayout { group_count: bind_group_layouts.len() }
    }

    /// Compiles a render pipeline against the current surface color format
    /// and stores it; the returned identifier is issued exactly once and
    /// stays valid for the life of the renderer.
    ///
    /// The fixed function state never varies: entry points `vs_main` and
    /// `fs_main`, triangle-list topology, counter-clockwise front face,
    /// back-face culling, filled polygons, no depth/stencil, single-sample.
    /// Creating a pipeline while a frame is being recorded is a contract
    /// violation and is refused with `FrameActive`.
    pub fn create_render_pipeline(
        &mut self,
        pipeline_layout: &PipelineLayout,
        shader_module: &ShaderModule,
    ) -> (r: Result<RenderPipelineId, RenderError>)
        ensures
            old(self).frame == FrameState::Idle ==> (r matches Ok(id) && created_pipeline(
                *old(self),
                *final(self),
                id,
                *pipeline_layout,
                shader_module.source@,
            )),
            old(self).frame != FrameState::Idle ==> r == Err::<RenderPipelineId, RenderError>(
                RenderError::FrameActive,
            ) && *final(self) == *old(self),
    {
        match self.frame {
            FrameState::Idle => {
                let id = RenderPipelineId(self.pipelines.len());
                let record = Pipeline {
                    target_format: self.config.format,
                    layout_groups: pipeline_layout.group_count,
                    shader_source: shader_module.source.clone(),
                };
                self.pipelines.push(record);
                Ok(id)
            },
            _ => Err(RenderError::FrameActive),
        }
    }

    /// Looks up the pipeline a valid identifier refers to, in O(1).
    ///
    /// Returns exactly the record stored by the creation call that issued
    /// the identifier; an identifier this registry never issued is refused
    /// with `InvalidHandle`, never silently resolved.
    pub fn resolve(&self, id: RenderPipelineId) -> (r: Result<&Pipeline, RenderError>)
        ensures
            id.0 < self.pipelines@.len() ==> (r matches Ok(p) && *p == self.pipelines@[id.0 as int]),
            id.0 >= self.pipelines@.len() ==> r == Err::<&Pipeline, RenderError>(
                RenderError::InvalidHandle,
            ),
    {
        if id.0 < self.pipelines.len() {
            Ok(&self.pipelines[id.0])
        } else {
            Err(RenderError::InvalidHandle)
        }
    }

    /// The `Idle -> Acquired` step. `acquire_ok` is the outcome the driver
    /// layer reports from asking the presentation engine for the next image
    /// (the one call that may block, bounded by the FIFO queue depth).
    ///
    /// Starting a frame while one is already in flight is refused with
    /// `FrameActive`; a failed acquisition is a transient error for this
    /// frame only, reported as `AcquisitionFailed` with the recorder left
    /// `Idle` so the caller can reconfigure and retry next frame.
    pub fn begin_frame(&mut self, acquire_ok: bool) -> (r: Result<(), RenderError>)
        ensures
            old(self).frame != FrameState::Idle ==> r == Err::<(), RenderError>(
                RenderError::FrameActive,
            ) && *final(self) == *old(self),
            old(self).frame == FrameState::Idle && !acquire_ok ==> r == Err::<(), RenderError>(
                RenderError::AcquisitionFailed,
            ) && *final(self) == *old(self),
            old(self).frame == FrameState::Idle && acquire_ok ==> r is Ok && frame_acquired(
                *old(self),
                *final(self),
            ),
    {
        match self.frame {
            FrameState::Idle => {
                if acquire_ok {
                    self.frame = FrameState::Acquired;
                    Ok(())
                } else {
                    Err(RenderError::AcquisitionFailed)
                }
            },
            _ => Err(RenderError::FrameActive),
        }
    }

    /// The `Acquired -> PassOpen` step: begins a render pass on the acquired
    /// image's view with a single color attachment cleared to `clear_color`
    /// (and stored after the pass), and hands back the builder that records
    /// the pass's commands. Invoked in any other state, it is refused with
    /// `InvalidTransition`.
    pub fn open_pass(&mut self, clear_color: Color) -> (r: Result<RenderPassBuilder, RenderError>)
        ensures
            old(self).frame != FrameState::Acquired ==> r == Err::<RenderPassBuilder, RenderError>(
                RenderError::InvalidTransition,
            ) && *final(self) == *old(self),
            old(self).frame == FrameState::Acquired ==> {
                &&& r matches Ok(b) && pass_opened(*old(self), *final(self), clear_color, b)
                &&& r matches Ok(b) && b.wf()
            },
    {
        match self.frame {
            FrameState::Acquired => {
                self.frame = FrameState::PassOpen;
                Ok(
                    RenderPassBuilder {
                        clear_color,
                        pipeline_count: self.pipelines.len(),
                        commands: Vec::new(),
                        bound: false,
                    },
                )
            },
            _ => Err(RenderError::InvalidTransition),
        }
    }

    /// The `PassOpen -> Submitted` step: closes the pass and submits the
    /// recorded command buffer to the queue — the only point at which the
    /// frame's GPU-visible effects become ordered relative to prior frames.
    ///
    /// The builder is consumed, so it cannot record into a closed pass. The
    /// command stream is validated against the registry once more: a stream
    /// that binds an identifier this registry never issued (possible only
    /// for a hand-built builder) is refused with `InvalidHandle` and nothing
    /// is submitted.
    pub fn end_pass(&mut self, builder: RenderPassBuilder) -> (r: Result<FrameReport, RenderError>)
        ensures
            old(self).frame != FrameState::PassOpen ==> r == Err::<FrameReport, RenderError>(
                RenderError::InvalidTransition,
            ) && *final(self) == *old(self),
            old(self).frame == FrameState::PassOpen && !commands_valid(
                builder.commands@,
                old(self).pipelines@.len(),
            ) ==> r == Err::<FrameReport, RenderError>(RenderError::InvalidHandle) && *final(self)
                == *old(self),
            old(self).frame == FrameState::PassOpen && commands_valid(
                builder.commands@,
                old(self).pipelines@.len(),
            ) ==> (r matches Ok(rep) && pass_ended(*old(self), *final(self), builder, rep)),
    {
        match self.frame {
            FrameState::PassOpen => {
                let n = self.pipelines.len();
                let mut i: usize = 0;
                while i < builder.commands.len()
                    invariant
                        i <= builder.commands@.len(),
                        n == self.pipelines@.len(),
                        *self == *old(self),
                        old(self).frame == FrameState::PassOpen,
                        forall|j: int|
                            0 <= j < i ==> ((#[trigger] builder.commands@[j])
                                matches PassCommand::SetPipeline(id) ==> id.0 < n),
                    decreases builder.commands@.len() - i,
                {
                    match &builder.commands[i] {
                        PassCommand::SetPipeline(id) => {
                            if id.0 >= n {
                                proof {
                                    assert(!commands_valid(
                                        builder.commands@,
                                        old(self).pipelines@.len(),
                                    ));
                                }
                                return Err(RenderError::InvalidHandle);
                            }
                        },
                        PassCommand::Draw { .. } => {},
                    }
                    i += 1;
                }
                self.frame = FrameState::Submitted;
                Ok(
                    FrameReport {
                        clear_color: builder.clear_color,
                        commands: builder.commands,
                    },
                )
            },
            _ => Err(RenderError::InvalidTransition),
        }
    }

    /// Records and submits one whole frame: acquires the next image, opens
    /// a pass cleared to `clear_color`, lets `f` record commands through the
    /// restricted builder, then closes the pass, submits it and releases the
    /// frame. `acquire_ok` is the outcome the driver layer reports from
    /// asking the presentation engine for the next image.
    ///
    /// On success the report carries exactly what `f` recorded, and the
    /// recorder is back at `Idle` with the registry and configuration
    /// untouched. Starting while a frame is in flight is refused with
    /// `FrameActive`; a failed acquisition is reported as
    /// `AcquisitionFailed` and the recorder stays `Idle`. If `f` hands back
    /// a command stream that binds an identifier this registry never issued
    /// (possible only for a hand-built builder), the frame is abandoned:
    /// nothing is submitted, the recorder returns to `Idle`, and the error
    /// is `InvalidHandle`.
    pub fn render_pass<F: FnOnce(RenderPassBuilder) -> RenderPassBuilder>(
        &mut self,
        acquire_ok: bool,
        clear_color: Color,
        f: F,
    ) -> (r: Result<FrameReport, RenderError>)
        requires
            forall|b: RenderPassBuilder|
                (b.clear_color == clear_color && b.commands@ == Seq::<PassCommand>::empty()
                    && !b.bound && b.pipeline_count as nat == old(self).pipelines@.len())
                    ==> #[trigger] call_requires(f, (b,)),
        ensures
            old(self).frame != FrameState::Idle ==> r == Err::<FrameReport, RenderError>(
                RenderError::FrameActive,
            ) && *final(self) == *old(self),
            old(self).frame == FrameState::Idle && !acquire_ok ==> r == Err::<
                FrameReport,
                RenderError,
            >(RenderError::AcquisitionFailed) && *final(self) == *old(self),
            old(self).frame == FrameState::Idle && acquire_ok ==> final(self).config == old(
                self,
            ).config && final(self).pipelines@ == old(self).pipelines@ && final(self).frame
                == FrameState::Idle,
            old(self).frame == FrameState::Idle && acquire_ok ==> exists|
                b0: RenderPassBuilder,
                b1: RenderPassBuilder,
            |
                {
                    &&& b0.clear_color == clear_color
                    &&& b0.commands@ == Seq::<PassCommand>::empty()
                    &&& !b0.bound
                    &&& b0.pipeline_count as nat == old(self).pipelines@.len()
                    &&& #[trigger] call_ensures(f, (b0,), b1)
                    &&& commands_valid(b1.commands@, old(self).pipelines@.len()) ==> (r matches Ok(
                        rep,
                    ) && rep.clear_color == b1.clear_color && rep.commands@ == b1.commands@)
                    &&& !commands_valid(b1.commands@, old(self).pipelines@.len()) ==> r == Err::<
                        FrameReport,
                        RenderError,
                    >(RenderError::InvalidHandle)
                },
    {
        match self.begin_frame(acquire_ok) {
            Ok(()) => {},
            Err(e) => {
                return Err(e);
            },
        }
        let b0 = match self.open_pass(clear_color) {
            Ok(b) => b,
            Err(e) => {
                return Err(e);
            },
        };
        let b1 = f(b0);
        match self.end_pass(b1) {
            Ok(rep) => {
                match self.present() {
                    Ok(()) => Ok(rep),
                    Err(e) => Err(e),
                }
            },
            Err(e) => {
                // A rejected command stream abandons the frame: nothing was
                // submitted, and the recorder is ready for the next frame.
                self.frame = FrameState::Idle;
                Err(e)
            },
        }
    }

    /// The `Submitted -> Idle` step: the frame's transient resources (image
    /// view, command encoder) are released and the recorder is ready for the
    /// next frame. Invoked in any other state, it is refused with
    /// `InvalidTransition`.
    pub fn present(&mut self) -> (r: Result<(), RenderError>)
        ensures
            old(self).frame != FrameState::Submitted ==> r == Err::<(), RenderError>(
                RenderError::InvalidTransition,
            ) && *final(self) == *old(self),
            old(self).frame == FrameState::Submitted ==> r is Ok && presented(
                *old(self),
                *final(self),
            ),
    {
        match self.frame {
            FrameState::Submitted => {
                self.frame = FrameState::Idle;
                Ok(())
            },
            _ => Err(RenderError::InvalidTransition),
        }
    }
}

} // verus!
