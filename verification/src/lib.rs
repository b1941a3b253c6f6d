//! A minimal abstraction layer over a graphics device, verified with Verus.
//!
//! The crate models the part of a renderer that carries real invariants:
//! a pipeline registry that hands out opaque identifiers and resolves them
//! back, a surface configuration that is reconfigured on resize, and the
//! per-frame recording protocol `Idle -> Acquired -> PassOpen -> Submitted
//! -> Idle`. The driver layer that owns the actual GPU device, queue and
//! window surface performs each outside effect and reports its outcome to
//! this core, which decides and records every step with a proved contract.

pub mod color;
pub mod error;
pub mod frame;
pub mod laws;
pub mod pipeline;
pub mod renderer;
pub mod surface;

pub use color::Color;
pub use error::RenderError;
pub use frame::FrameReport;
pub use frame::FrameState;
pub use frame::PassCommand;
pub use frame::RenderPassBuilder;
pub use pipeline::BindGroupLayout;
pub use pipeline::Pipeline;
pub use pipeline::PipelineLayout;
pub use pipeline::RenderPipelineId;
pub use pipeline::ShaderModule;
pub use renderer::Renderer;
pub use surface::PresentMode;
pub use surface::SurfaceConfig;
pub use surface::SurfaceSize;
