//! Choosing the row kernel for a run.

use vstd::prelude::*;
use crate::colorspace::{supported_bit_depth, Colorspace};
use crate::error::Error;
use crate::row::{row_pairs, DeltaEScalar, FrameRow};
use crate::sample::SampleTriple;
use crate::vector::DeltaEAVX2;

verus! {

/// One of the two ways to walk a row. Both yield the same pairs.
#[derive(Copy, Clone, Debug, PartialEq, Eq, Structural)]
pub enum RowKernel {
    /// One position at a time.
    Scalar(DeltaEScalar),
    /// Eight positions at a time.
    Avx2(DeltaEAVX2),
}

/// The kernel for a bit depth and a horizontal chroma decimation. The
/// eight-wide kernel is taken where the processor has it (`avx2`), the caller
/// has not switched it off (`simd`) and chroma is halved horizontally.
pub open spec fn spec_row_kernel(bit_depth: usize, xdec: usize, simd: bool, avx2: bool) -> RowKernel {
    if avx2 && xdec == 1 && simd {
        RowKernel::Avx2(DeltaEAVX2 { bit_depth })
    } else {
        RowKernel::Scalar(DeltaEScalar { colorspace: Colorspace { bit_depth, x_decimation: xdec } })
    }
}

/// Picks the row kernel for a run, or refuses a colour format for which there
/// is none.
pub fn get_delta_e_row_fn(bit_depth: usize, xdec: usize, simd: bool, avx2: bool) -> (kernel: Result<
    RowKernel,
    Error,
>)
    ensures
        kernel.is_ok() <==> supported_bit_depth(bit_depth) && xdec <= 1,
        kernel.is_ok() ==> kernel.unwrap() == spec_row_kernel(bit_depth, xdec, simd, avx2),
        kernel.is_ok() ==> kernel.unwrap().spec_colorspace().wf(),
        kernel.is_err() ==> kernel.unwrap_err() == Error::UnsupportedColorspace,
{
    match Colorspace::new(bit_depth, xdec) {
        Err(refused) => Err(refused),
        Ok(colorspace) => {
            if avx2 && xdec == 1 && simd {
                Ok(RowKernel::Avx2(DeltaEAVX2 { bit_depth }))
            } else {
                Ok(RowKernel::Scalar(DeltaEScalar { colorspace }))
            }
        },
    }
}

impl RowKernel {
    /// The colour format of the rows that this kernel reads.
    pub open spec fn spec_colorspace(self) -> Colorspace {
        match self {
            RowKernel::Scalar(scalar) => scalar.colorspace,
            RowKernel::Avx2(wide) => wide.spec_colorspace(),
        }
    }

    /// The colour format of the rows that this kernel reads.
    pub fn colorspace(&self) -> (colorspace: Colorspace)
        ensures
            colorspace == self.spec_colorspace(),
    {
        match self {
            RowKernel::Scalar(scalar) => scalar.colorspace,
            RowKernel::Avx2(wide) => wide.colorspace(),
        }
    }

    /// The pairs of one row, whichever kernel gathers them: what is returned
    /// depends on the colour format and the rows alone.
    pub fn apply(&self, row1: FrameRow, row2: FrameRow) -> (pairs: Result<
        Vec<(SampleTriple, SampleTriple)>,
        Error,
    >)
        ensures
            pairs.is_ok() <==> row1.same_shape(row2),
            pairs.is_ok() ==> pairs.unwrap()@ == row_pairs(self.spec_colorspace(), row1, row2),
            pairs.is_err() ==> pairs.unwrap_err() == Error::LengthMismatch,
    {
        match self {
            RowKernel::Scalar(scalar) => scalar.delta_e_row_scalar(row1, row2),
            RowKernel::Avx2(wide) => match wide.delta_e_row_avx2(row1, row2) {
                Ok(gathered) => Ok(gathered.flatten()),
                Err(refused) => Err(refused),
            },
        }
    }
}

} // verus!
