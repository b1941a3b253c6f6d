use vstd::prelude::*;

verus! {

/// An RGBA clear color with 8-bit normalized channels.
///
/// A channel value `v` stands for the intensity `v / 255`, so `255` is full
/// intensity. The driver layer converts each channel to the floating-point
/// value its graphics backend expects; the core itself only stores and
/// compares the plain channel values.
#[derive(Clone, Copy, Debug, PartialEq, Eq, Structural)]
pub struct Color {
    pub r: u8,
    pub g: u8,
    pub b: u8,
    pub a: u8,
}

} // verus!
