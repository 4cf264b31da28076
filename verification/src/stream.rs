//! What two videos must share before their frames can be compared.

use vstd::prelude::*;
use crate::colorspace::{supported_bit_depth, ChromaSampling};
use crate::error::Error;
use crate::frame::{luma_plane_fits, FrameLayout};
use crate::kernel::spec_row_kernel;

verus! {

/// The colour formats that a YUV4MPEG2 header can declare.
#[derive(Copy, Clone, Debug, PartialEq, Eq, Structural)]
pub enum Y4mColorspace {
    /// Grayscale only, 8-bit.
    Cmono,
    /// Grayscale only, 12-bit.
    Cmono12,
    /// 4:2:0 with coincident chroma planes, 8-bit.
    C420,
    /// 4:2:0, 10-bit.
    C420p10,
    /// 4:2:0, 12-bit.
    C420p12,
    /// 4:2:0 with biaxially displaced chroma planes, 8-bit.
    C420jpeg,
    /// 4:2:0 with vertically displaced chroma planes, 8-bit.
    C420paldv,
    /// 4:2:0 as MPEG-2 names it, 8-bit.
    C420mpeg2,
    /// 4:2:2, 8-bit.
    C422,
    /// 4:2:2, 10-bit.
    C422p10,
    /// 4:2:2, 12-bit.
    C422p12,
    /// 4:4:4, 8-bit.
    C444,
    /// 4:4:4, 10-bit.
    C444p10,
    /// 4:4:4, 12-bit.
    C444p12,
}

impl Y4mColorspace {
    /// Bits per coded sample.
    pub open spec fn spec_bit_depth(self) -> usize {
        match self {
            Y4mColorspace::C420p10 | Y4mColorspace::C422p10 | Y4mColorspace::C444p10 => 10,
            Y4mColorspace::Cmono12
            | Y4mColorspace::C420p12
            | Y4mColorspace::C422p12
            | Y4mColorspace::C444p12 => 12,
            _ => 8,
        }
    }

    /// How the format samples chroma.
    pub open spec fn spec_sampling(self) -> ChromaSampling {
        match self {
            Y4mColorspace::Cmono | Y4mColorspace::Cmono12 => ChromaSampling::Cs400,
            Y4mColorspace::C422 | Y4mColorspace::C422p10 | Y4mColorspace::C422p12 => {
                ChromaSampling::Cs422
            },
            Y4mColorspace::C444 | Y4mColorspace::C444p10 | Y4mColorspace::C444p12 => {
                ChromaSampling::Cs444
            },
            _ => ChromaSampling::Cs420,
        }
    }

    /// Bits per coded sample.
    pub fn get_bit_depth(self) -> (bits: usize)
        ensures
            bits == self.spec_bit_depth(),
            self.spec_sampling().supported() ==> supported_bit_depth(bits),
    {
        match self {
            Y4mColorspace::Cmono
            | Y4mColorspace::C420
            | Y4mColorspace::C422
            | Y4mColorspace::C444
            | Y4mColorspace::C420jpeg
            | Y4mColorspace::C420paldv
            | Y4mColorspace::C420mpeg2 => 8,
            Y4mColorspace::C420p10 | Y4mColorspace::C422p10 | Y4mColorspace::C444p10 => 10,
            Y4mColorspace::Cmono12
            | Y4mColorspace::C420p12
            | Y4mColorspace::C422p12
            | Y4mColorspace::C444p12 => 12,
        }
    }
}

/// The chroma sampling of a header's colour format.
pub fn map_y4m_color_space(color_space: Y4mColorspace) -> (sampling: ChromaSampling)
    ensures
        sampling == color_space.spec_sampling(),
{
    match color_space {
        Y4mColorspace::Cmono | Y4mColorspace::Cmono12 => ChromaSampling::Cs400,
        Y4mColorspace::C420jpeg | Y4mColorspace::C420paldv => ChromaSampling::Cs420,
        Y4mColorspace::C420mpeg2 => ChromaSampling::Cs420,
        Y4mColorspace::C420 | Y4mColorspace::C420p10 | Y4mColorspace::C420p12 => {
            ChromaSampling::Cs420
        },
        Y4mColorspace::C422 | Y4mColorspace::C422p10 | Y4mColorspace::C422p12 => {
            ChromaSampling::Cs422
        },
        Y4mColorspace::C444 | Y4mColorspace::C444p10 | Y4mColorspace::C444p12 => {
            ChromaSampling::Cs444
        },
    }
}

/// What the header of a video says of its frames.
#[derive(Copy, Clone, Debug, PartialEq, Eq, Structural)]
pub struct VideoHeader {
    pub width: usize,
    pub height: usize,
    pub colorspace: Y4mColorspace,
    /// Frames per second, as a fraction.
    pub framerate_num: usize,
    pub framerate_den: usize,
}

/// What a run over two videos works with.
#[derive(Copy, Clone, Debug, PartialEq, Eq, Structural)]
pub struct Plan {
    pub layout: FrameLayout,
    /// Whether the two videos have the same frame rate. A difference is worth
    /// a warning and stops nothing.
    pub framerates_match: bool,
}

/// Whether two frame rates, each a fraction, are the same number.
pub open spec fn same_framerate(first: VideoHeader, second: VideoHeader) -> bool {
    first.framerate_num * second.framerate_den == second.framerate_num * first.framerate_den
}

/// The product of a numerator and a denominator, in a type wide enough for
/// it.
fn cross(num: usize, den: usize) -> (product: u128)
    ensures
        product == num * den,
{
    assert(num * den <= 0xffff_ffff_ffff_ffff * 0xffff_ffff_ffff_ffff) by (nonlinear_arith)
        requires
            0 <= num <= 0xffff_ffff_ffff_ffff,
            0 <= den <= 0xffff_ffff_ffff_ffff,
    ;
    (num as u128) * (den as u128)
}

/// Holds two headers against each other and lays out the run. The first
/// difference found is the one reported: size, then bit depth, then chroma
/// sampling. Formats that agree but have no kernel are refused after that,
/// and frames too large for the machine last.
pub fn plan_comparison(first: &VideoHeader, second: &VideoHeader, simd: bool, avx2: bool) -> (plan:
    Result<Plan, Error>)
    ensures
        plan == Err::<Plan, Error>(Error::DimensionMismatch) <==> (first.width != second.width
            || first.height != second.height),
        plan == Err::<Plan, Error>(Error::BitDepthMismatch) <==> (first.width == second.width
            && first.height == second.height && first.colorspace.spec_bit_depth()
            != second.colorspace.spec_bit_depth()),
        plan == Err::<Plan, Error>(Error::SamplingMismatch) <==> (first.width == second.width
            && first.height == second.height && first.colorspace.spec_bit_depth()
            == second.colorspace.spec_bit_depth() && first.colorspace.spec_sampling()
            != second.colorspace.spec_sampling()),
        plan == Err::<Plan, Error>(Error::UnsupportedColorspace) <==> (first.width == second.width
            && first.height == second.height && first.colorspace.spec_bit_depth()
            == second.colorspace.spec_bit_depth() && first.colorspace.spec_sampling()
            == second.colorspace.spec_sampling() && !first.colorspace.spec_sampling().supported()),
        plan == Err::<Plan, Error>(Error::FrameTooLarge) <==> (first.width == second.width
            && first.height == second.height && first.colorspace.spec_bit_depth()
            == second.colorspace.spec_bit_depth() && first.colorspace.spec_sampling()
            == second.colorspace.spec_sampling() && first.colorspace.spec_sampling().supported()
            && !luma_plane_fits(first.colorspace.spec_bit_depth(), first.width, first.height)),
        plan.is_err() ==> plan.unwrap_err() == Error::DimensionMismatch || plan.unwrap_err()
            == Error::BitDepthMismatch || plan.unwrap_err() == Error::SamplingMismatch
            || plan.unwrap_err() == Error::UnsupportedColorspace || plan.unwrap_err()
            == Error::FrameTooLarge,
        plan.is_ok() ==> {
            &&& plan.unwrap().layout.wf()
            &&& plan.unwrap().layout == (FrameLayout {
                width: first.width,
                height: first.height,
                kernel: spec_row_kernel(
                    first.colorspace.spec_bit_depth(),
                    first.colorspace.spec_sampling().spec_x_decimation(),
                    simd,
                    avx2,
                ),
                y_decimation: first.colorspace.spec_sampling().spec_y_decimation(),
            })
            &&& plan.unwrap().framerates_match == same_framerate(*first, *second)
        },
{
    if first.width != second.width || first.height != second.height {
        return Err(Error::DimensionMismatch);
    }
    let bit_depth: usize = first.colorspace.get_bit_depth();
    if bit_depth != second.colorspace.get_bit_depth() {
        return Err(Error::BitDepthMismatch);
    }
    let sampling = map_y4m_color_space(first.colorspace);
    if sampling != map_y4m_color_space(second.colorspace) {
        return Err(Error::SamplingMismatch);
    }
    let layout = match FrameLayout::new(first.width, first.height, bit_depth, sampling, simd, avx2) {
        Ok(layout) => layout,
        Err(refused) => {
            return Err(refused);
        },
    };
    let left: u128 = cross(first.framerate_num, second.framerate_den);
    let right: u128 = cross(second.framerate_num, first.framerate_den);
    Ok(Plan { layout, framerates_match: left == right })
}

} // verus!
