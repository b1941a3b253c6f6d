use vstd::prelude::*;

verus! {

/// Everything the renderer core can refuse, each deterministically.
///
/// Transient conditions and caller defects are both reported as explicit
/// error values rather than panics, so a caller can always observe exactly
/// why an operation was refused.
#[derive(Clone, Copy, Debug, PartialEq, Eq, Structural)]
pub enum RenderError {
    /// A pipeline identifier that this registry never issued.
    InvalidHandle,
    /// An attempt to start a frame, or to create a pipeline, while a frame
    /// is already being recorded.
    FrameActive,
    /// A frame operation invoked in a state it is not a legal step from.
    InvalidTransition,
    /// The presentation engine could not supply the next image for this
    /// frame; the caller should reconfigure the surface and retry on the
    /// next loop iteration.
    AcquisitionFailed,
    /// A draw was issued before any pipeline was bound in this pass.
    NoPipelineBound,
}

} // verus!
