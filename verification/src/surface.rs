use vstd::prelude::*;

verus! {

/// A surface extent in physical pixels, as reported by the windowing layer.
#[derive(Clone, Copy, Debug, PartialEq, Eq, Structural)]
pub struct SurfaceSize {
    pub width: u32,
    pub height: u32,
}

/// The presentation mode of the surface. The core always selects the
/// vsync-locked FIFO mode, so this is the only mode it ever stores.
#[derive(Clone, Copy, Debug, PartialEq, Eq, Structural)]
pub enum PresentMode {
    Fifo,
}

/// The stored configuration of the presentation surface.
///
/// The format is an opaque code for the adapter-preferred color format; it
/// is chosen at construction and never changes afterwards. Width and height
/// are kept at least 1 (see [`clamped_dim`]), so the core never records a
/// zero-area surface.
#[derive(Clone, Copy, Debug, PartialEq, Eq, Structural)]
pub struct SurfaceConfig {
    pub format: u32,
    pub width: u32,
    pub height: u32,
    pub present_mode: PresentMode,
}

/// The zero-size policy: a requested dimension of 0 is clamped to 1.
///
/// Windowing systems report zero-sized surfaces while a window is minimized;
/// configuring one crashes the next image acquisition, so the core clamps
/// both dimensions to a minimum of one pixel, consistently at construction
/// and on every resize.
pub open spec fn clamped_dim(v: u32) -> u32 {
    if v == 0 {
        1u32
    } else {
        v
    }
}

impl SurfaceConfig {
    /// A configuration is well formed when it has a positive area.
    pub open spec fn well_formed(self) -> bool {
        self.width >= 1 && self.height >= 1
    }
}

/// Clamps one dimension to the minimum of 1, the executable counterpart of
/// [`clamped_dim`].
pub fn clamp_dim(v: u32) -> (r: u32)
    ensures
        r == clamped_dim(v),
        r >= 1,
{
    if v == 0 {
        1
    } else {
        v
    }
}

} // verus!
