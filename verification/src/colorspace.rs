//! Colour formats: bit depth and chroma subsampling.

use vstd::prelude::*;
use crate::error::Error;

verus! {

/// How the two chroma planes are sampled relative to the luma plane.
#[derive(Copy, Clone, Debug, PartialEq, Eq, Structural)]
pub enum ChromaSampling {
    /// Chroma halved in both directions.
    Cs420,
    /// Chroma halved horizontally only.
    Cs422,
    /// Chroma at full resolution.
    Cs444,
    /// No chroma at all.
    Cs400,
}

impl ChromaSampling {
    /// Whether some kernel can compare frames of this layout.
    pub open spec fn supported(self) -> bool {
        self != ChromaSampling::Cs400
    }

    /// How many times the chroma width is halved: 0 or 1.
    pub open spec fn spec_x_decimation(self) -> usize {
        match self {
            ChromaSampling::Cs444 => 0,
            _ => 1,
        }
    }

    /// How many times the chroma height is halved: 0 or 1.
    pub open spec fn spec_y_decimation(self) -> usize {
        match self {
            ChromaSampling::Cs420 | ChromaSampling::Cs400 => 1,
            _ => 0,
        }
    }

    /// The horizontal and vertical decimation of the chroma planes.
    pub fn decimation(self) -> (dec: (usize, usize))
        ensures
            dec.0 == self.spec_x_decimation(),
            dec.1 == self.spec_y_decimation(),
    {
        match self {
            ChromaSampling::Cs420 => (1, 1),
            ChromaSampling::Cs422 => (1, 0),
            ChromaSampling::Cs444 => (0, 0),
            ChromaSampling::Cs400 => (1, 1),
        }
    }
}

/// Whether `bit_depth` is one of the depths that samples may be coded at.
pub open spec fn supported_bit_depth(bit_depth: usize) -> bool {
    bit_depth == 8 || bit_depth == 10 || bit_depth == 12
}

/// What a row kernel needs to know of a colour format: how many bits a sample
/// has and whether one chroma sample serves two luma samples.
#[derive(Copy, Clone, Debug, PartialEq, Eq, Structural)]
pub struct Colorspace {
    pub bit_depth: usize,
    pub x_decimation: usize,
}

impl Colorspace {
    /// The formats for which kernels exist.
    pub open spec fn wf(self) -> bool {
        supported_bit_depth(self.bit_depth) && self.x_decimation <= 1
    }

    /// Bytes that one coded sample takes in a plane.
    pub open spec fn spec_bytes_per_sample(self) -> usize {
        if self.bit_depth <= 8 { 1 } else { 2 }
    }

    /// Bytes that `samples` coded samples take in a plane.
    pub open spec fn spec_byte_length(self, samples: int) -> int {
        if self.bit_depth <= 8 { samples } else { 2 * samples }
    }

    /// Factor by which the 8-bit offsets and excursions grow at this depth.
    pub open spec fn spec_scale(self) -> int {
        if self.bit_depth == 8 { 1 } else if self.bit_depth == 10 { 4 } else { 16 }
    }

    /// Distance between coded black and coded white in luma: 219 at 8 bits.
    pub open spec fn spec_luma_excursion(self) -> int {
        219 * self.spec_scale()
    }

    /// Distance between the two ends of the coded chroma range: 224 at 8
    /// bits.
    pub open spec fn spec_chroma_excursion(self) -> int {
        224 * self.spec_scale()
    }

    /// The format with the given depth and horizontal decimation, if supported.
    pub fn new(bit_depth: usize, x_decimation: usize) -> (made: Result<Colorspace, Error>)
        ensures
            made.is_ok() <==> supported_bit_depth(bit_depth) && x_decimation <= 1,
            made.is_ok() ==> made.unwrap() == (Colorspace { bit_depth, x_decimation }),
            made.is_err() ==> made.unwrap_err() == Error::UnsupportedColorspace,
    {
        if (bit_depth == 8 || bit_depth == 10 || bit_depth == 12) && x_decimation <= 1 {
            Ok(Colorspace { bit_depth, x_decimation })
        } else {
            Err(Error::UnsupportedColorspace)
        }
    }

    /// The format for a bit depth and a chroma layout, if supported.
    pub fn for_sampling(bit_depth: usize, sampling: ChromaSampling) -> (made: Result<Colorspace, Error>)
        ensures
            made.is_ok() <==> supported_bit_depth(bit_depth) && sampling.supported(),
            made.is_ok() ==> made.unwrap() == (Colorspace {
                bit_depth,
                x_decimation: sampling.spec_x_decimation(),
            }),
            made.is_err() ==> made.unwrap_err() == Error::UnsupportedColorspace,
    {
        match sampling {
            ChromaSampling::Cs400 => Err(Error::UnsupportedColorspace),
            _ => Colorspace::new(bit_depth, sampling.decimation().0),
        }
    }

    /// Bytes that one coded sample takes in a plane.
    pub fn bytes_per_sample(&self) -> (bytes: usize)
        ensures
            bytes == self.spec_bytes_per_sample(),
    {
        if self.bit_depth <= 8 { 1 } else { 2 }
    }

    /// Bytes that `samples` coded samples take in a plane, unless that
    /// number is too large for the machine.
    pub fn byte_length(&self, samples: usize) -> (bytes: Option<usize>)
        ensures
            bytes.is_some() <==> self.spec_byte_length(samples as int) <= usize::MAX,
            bytes.is_some() ==> bytes.unwrap() == self.spec_byte_length(samples as int),
    {
        if self.bit_depth <= 8 {
            Some(samples)
        } else {
            samples.checked_mul(2)
        }
    }

    /// Factor by which the 8-bit offsets and excursions grow at this depth.
    pub fn scale(&self) -> (factor: i32)
        requires
            self.wf(),
        ensures
            factor == self.spec_scale(),
    {
        if self.bit_depth == 8 { 1 } else if self.bit_depth == 10 { 4 } else { 16 }
    }

    /// Distance between coded black and coded white in luma.
    pub fn luma_excursion(&self) -> (range: i32)
        requires
            self.wf(),
        ensures
            range == self.spec_luma_excursion(),
    {
        219 * self.scale()
    }

    /// Distance between the two ends of the coded chroma range.
    pub fn chroma_excursion(&self) -> (range: i32)
        requires
            self.wf(),
        ensures
            range == self.spec_chroma_excursion(),
    {
        224 * self.scale()
    }
}

} // verus!
