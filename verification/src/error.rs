//! The ways in which a comparison can be refused.

use vstd::prelude::*;

verus! {

/// Why a request was refused. Nothing is computed once one of these is returned.
#[derive(Copy, Clone, Debug, PartialEq, Eq, Structural)]
pub enum Error {
    /// The bit depth is not 8, 10 or 12, or the chroma layout has no kernel.
    UnsupportedColorspace,
    /// The two rows handed to a kernel do not have planes of matching length.
    LengthMismatch,
    /// A plane is too short to hold the row asked for.
    PlaneTooShort,
    /// A frame's size in bytes does not fit the machine's address space.
    FrameTooLarge,
    /// The two videos differ in width or height.
    DimensionMismatch,
    /// The two videos differ in bit depth.
    BitDepthMismatch,
    /// The two videos differ in chroma subsampling.
    SamplingMismatch,
    /// An overall score was asked for before any frame was compared.
    NoFrames,
}

} // verus!
