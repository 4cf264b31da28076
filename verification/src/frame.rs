//! Whole frames: where each row lies in the three planes, and which coded
//! pixel stands at each position.

use vstd::prelude::*;
use vstd::slice::slice_subrange;
use crate::colorspace::{supported_bit_depth, ChromaSampling, Colorspace};
use crate::error::Error;
use crate::kernel::{get_delta_e_row_fn, spec_row_kernel, RowKernel};
use crate::row::{chroma_position, FrameRow};
use crate::sample::{lemma_plane_window, plane_sample, SampleTriple};

verus! {

/// The three planes of one frame.
#[derive(Copy, Clone, Debug)]
pub struct Frame<'a> {
    pub y: &'a [u8],
    pub u: &'a [u8],
    pub v: &'a [u8],
}

/// The size of the frames of a run, the decimation of their chroma planes and
/// the kernel chosen for their rows.
#[derive(Copy, Clone, Debug, PartialEq, Eq, Structural)]
pub struct FrameLayout {
    pub width: usize,
    pub height: usize,
    pub kernel: RowKernel,
    pub y_decimation: usize,
}

/// Whether the machine can hold the size in bytes of one luma row, and of a
/// luma plane of `height` such rows.
pub open spec fn luma_plane_fits(bit_depth: usize, width: usize, height: usize) -> bool {
    let stride = (Colorspace { bit_depth, x_decimation: 0 }).spec_byte_length(width as int);
    stride <= usize::MAX && stride * height <= usize::MAX
}

/// Where row `index` of a plane with rows of `stride` bytes begins and ends,
/// if a plane of `len` bytes holds it.
fn span(index: usize, stride: usize, len: usize) -> (bounds: Option<(usize, usize)>)
    ensures
        bounds.is_some() <==> (index + 1) * stride <= len,
        bounds.is_some() ==> bounds.unwrap().0 == index * stride && bounds.unwrap().1 == (index
            + 1) * stride,
        bounds.is_some() ==> bounds.unwrap().0 + stride == bounds.unwrap().1,
{
    if stride == 0 {
        assert(index * stride == 0 && (index + 1) * stride == 0) by (nonlinear_arith)
            requires
                stride == 0,
        ;
        return Some((0, 0));
    }
    if index >= len {
        assert((index + 1) * stride > len) by (nonlinear_arith)
            requires
                index >= len,
                stride >= 1,
        ;
        return None;
    }
    assert((index + 1) * stride - stride == index * stride) by (nonlinear_arith);
    match (index + 1).checked_mul(stride) {
        Some(end) => if end <= len {
            Some((end - stride, end))
        } else {
            None
        },
        None => None,
    }
}

impl FrameLayout {
    /// The colour format of the frames.
    pub open spec fn colorspace(self) -> Colorspace {
        self.kernel.spec_colorspace()
    }

    /// Samples in one row of a chroma plane.
    pub open spec fn spec_chroma_width(self) -> int {
        if self.colorspace().x_decimation == 1 {
            self.width as int / 2
        } else {
            self.width as int
        }
    }

    /// Bytes from one row of the luma plane to the next.
    pub open spec fn spec_luma_stride(self) -> int {
        self.colorspace().spec_byte_length(self.width as int)
    }

    /// Bytes from one row of a chroma plane to the next.
    pub open spec fn spec_chroma_stride(self) -> int {
        self.colorspace().spec_byte_length(self.spec_chroma_width())
    }

    /// The chroma row that serves luma row `row`.
    pub open spec fn spec_chroma_row(self, row: int) -> int {
        if self.y_decimation == 1 {
            row / 2
        } else {
            row
        }
    }

    /// Positions of a row for which luma and chroma are both there: the
    /// width, less one where the width is odd and chroma is halved.
    pub open spec fn spec_row_width(self) -> int {
        if self.colorspace().x_decimation == 1 {
            2 * (self.width as int / 2)
        } else {
            self.width as int
        }
    }

    /// A supported colour format, and a luma plane whose size in bytes the
    /// machine can hold.
    pub open spec fn wf(self) -> bool {
        &&& self.colorspace().wf()
        &&& self.y_decimation <= 1
        &&& self.spec_luma_stride() <= usize::MAX
        &&& self.spec_luma_stride() * self.height <= usize::MAX
    }

    /// The layout for frames of the given size, bit depth and chroma
    /// sampling, with the kernel that `simd` and `avx2` select.
    pub fn new(
        width: usize,
        height: usize,
        bit_depth: usize,
        sampling: ChromaSampling,
        simd: bool,
        avx2: bool,
    ) -> (made: Result<FrameLayout, Error>)
        ensures
            made.is_ok() ==> made.unwrap().wf() && made.unwrap() == (FrameLayout {
                width,
                height,
                kernel: spec_row_kernel(bit_depth, sampling.spec_x_decimation(), simd, avx2),
                y_decimation: sampling.spec_y_decimation(),
            }),
            made.is_err() ==> made.unwrap_err() == Error::UnsupportedColorspace
                || made.unwrap_err() == Error::FrameTooLarge,
            made == Err::<FrameLayout, Error>(Error::UnsupportedColorspace) <==> !(
            supported_bit_depth(bit_depth) && sampling.supported()),
            made == Err::<FrameLayout, Error>(Error::FrameTooLarge) <==> supported_bit_depth(
                bit_depth,
            ) && sampling.supported() && !luma_plane_fits(bit_depth, width, height),
    {
        if sampling == ChromaSampling::Cs400 {
            return Err(Error::UnsupportedColorspace);
        }
        let (xdec, ydec) = sampling.decimation();
        let kernel = match get_delta_e_row_fn(bit_depth, xdec, simd, avx2) {
            Ok(kernel) => kernel,
            Err(refused) => {
                return Err(refused);
            },
        };
        let stride: usize = match kernel.colorspace().byte_length(width) {
            Some(stride) => stride,
            None => {
                return Err(Error::FrameTooLarge);
            },
        };
        if stride.checked_mul(height).is_none() {
            return Err(Error::FrameTooLarge);
        }
        Ok(FrameLayout { width, height, kernel, y_decimation: ydec })
    }

    /// Bytes from one row of the luma plane to the next.
    pub fn luma_stride(&self) -> (stride: usize)
        requires
            self.wf(),
        ensures
            stride == self.spec_luma_stride(),
    {
        if self.kernel.colorspace().bytes_per_sample() == 1 {
            self.width
        } else {
            2 * self.width
        }
    }

    /// Samples in one row of a chroma plane.
    pub fn chroma_width(&self) -> (samples: usize)
        ensures
            samples == self.spec_chroma_width(),
    {
        if self.kernel.colorspace().x_decimation == 1 {
            self.width / 2
        } else {
            self.width
        }
    }

    /// Bytes from one row of a chroma plane to the next.
    pub fn chroma_stride(&self) -> (stride: usize)
        requires
            self.wf(),
        ensures
            stride == self.spec_chroma_stride(),
    {
        if self.kernel.colorspace().bytes_per_sample() == 1 {
            self.chroma_width()
        } else {
            2 * self.chroma_width()
        }
    }

    /// Pixels in a frame: the length of its buffer of distances.
    pub fn pixel_count(&self) -> (pixels: usize)
        requires
            self.wf(),
        ensures
            pixels == self.width * self.height,
    {
        assert(self.width * self.height <= self.spec_luma_stride() * self.height)
            by (nonlinear_arith)
            requires
                self.width <= self.spec_luma_stride(),
        ;
        self.width * self.height
    }
}

impl FrameLayout {
    /// Whether each plane of `frame` reaches to the end of what row `row`
    /// reads from it.
    pub open spec fn holds_row(self, frame: Frame, row: int) -> bool {
        &&& (row + 1) * self.spec_luma_stride() <= frame.y@.len()
        &&& (self.spec_chroma_row(row) + 1) * self.spec_chroma_stride() <= frame.u@.len()
        &&& (self.spec_chroma_row(row) + 1) * self.spec_chroma_stride() <= frame.v@.len()
    }

    /// Whether the planes of `frame` hold every row of the layout.
    pub open spec fn holds(self, frame: Frame) -> bool {
        self.height > 0 ==> self.holds_row(frame, self.height - 1)
    }

    /// The coded pixel at row `row`, column `x` of a frame: its own luma
    /// sample, and the chroma samples of the chroma row and column that serve
    /// it.
    pub open spec fn pixel(self, frame: Frame, row: int, x: int) -> SampleTriple {
        let size = self.colorspace().spec_bytes_per_sample() as int;
        let chroma = self.spec_chroma_row(row) * self.spec_chroma_width() + chroma_position(
            self.colorspace(),
            x,
        );
        SampleTriple {
            y: plane_sample(frame.y@, size, row * self.width + x),
            u: plane_sample(frame.u@, size, chroma),
            v: plane_sample(frame.v@, size, chroma),
        }
    }

    /// Where chroma is halved in both directions, the chroma sample at row
    /// `i`, column `j` of a chroma plane is the one that the four pixels at
    /// rows `2i`, `2i + 1` and columns `2j`, `2j + 1` carry: the nearest
    /// sample, never a blend.
    pub proof fn lemma_chroma_shared_by_four(self, frame: Frame, i: int, j: int)
        requires
            self.colorspace().x_decimation == 1,
            self.y_decimation == 1,
            0 <= i,
            0 <= j,
        ensures
            ({
                let size = self.colorspace().spec_bytes_per_sample() as int;
                let at = i * self.spec_chroma_width() + j;
                forall|row: int, x: int|
                    2 * i <= row <= 2 * i + 1 && 2 * j <= x <= 2 * j + 1 ==> {
                        &&& (#[trigger] self.pixel(frame, row, x)).u == plane_sample(
                            frame.u@,
                            size,
                            at,
                        )
                        &&& self.pixel(frame, row, x).v == plane_sample(frame.v@, size, at)
                    }
            }),
    {
    }

    /// A frame that holds a row holds every row above it.
    pub proof fn lemma_holds_earlier_rows(self, frame: Frame, row: int, earlier: int)
        requires
            self.holds_row(frame, row),
            0 <= earlier <= row,
        ensures
            self.holds_row(frame, earlier),
    {
        let luma = self.spec_luma_stride();
        let chroma = self.spec_chroma_stride();
        let high = self.spec_chroma_row(row);
        let low = self.spec_chroma_row(earlier);
        assert((earlier + 1) * luma <= (row + 1) * luma) by (nonlinear_arith)
            requires
                0 <= earlier <= row,
                0 <= luma,
        ;
        assert((low + 1) * chroma <= (high + 1) * chroma) by (nonlinear_arith)
            requires
                0 <= low <= high,
                0 <= chroma,
        ;
    }

    /// Cuts row `row` out of the three planes of a frame.
    pub fn row<'a>(&self, frame: Frame<'a>, row: usize) -> (cut: Result<FrameRow<'a>, Error>)
        requires
            self.wf(),
        ensures
            cut.is_ok() <==> self.holds_row(frame, row as int),
            cut.is_err() ==> cut.unwrap_err() == Error::PlaneTooShort,
            cut.is_ok() ==> {
                let chroma_row = self.spec_chroma_row(row as int);
                &&& cut.unwrap().y@ == frame.y@.subrange(
                    row * self.spec_luma_stride(),
                    (row + 1) * self.spec_luma_stride(),
                )
                &&& cut.unwrap().u@ == frame.u@.subrange(
                    chroma_row * self.spec_chroma_stride(),
                    (chroma_row + 1) * self.spec_chroma_stride(),
                )
                &&& cut.unwrap().v@ == frame.v@.subrange(
                    chroma_row * self.spec_chroma_stride(),
                    (chroma_row + 1) * self.spec_chroma_stride(),
                )
                &&& cut.unwrap().y@.len() == self.spec_luma_stride()
                &&& cut.unwrap().u@.len() == self.spec_chroma_stride()
                &&& cut.unwrap().v@.len() == self.spec_chroma_stride()
                &&& cut.unwrap().width(self.colorspace()) == self.spec_row_width()
                &&& forall|x: int|
                    0 <= x < self.spec_row_width() ==> cut.unwrap().triple(self.colorspace(), x)
                        == self.pixel(frame, row as int, x)
            },
    {
        let chroma_row: usize = if self.y_decimation == 1 { row / 2 } else { row };
        let luma = span(row, self.luma_stride(), frame.y.len());
        let first = span(chroma_row, self.chroma_stride(), frame.u.len());
        let second = span(chroma_row, self.chroma_stride(), frame.v.len());
        match (luma, first, second) {
            (Some(luma), Some(first), Some(second)) => {
                let cut = FrameRow {
                    y: slice_subrange(frame.y, luma.0, luma.1),
                    u: slice_subrange(frame.u, first.0, first.1),
                    v: slice_subrange(frame.v, second.0, second.1),
                };
                proof {
                    let colorspace = self.colorspace();
                    let width = self.width as int;
                    let chroma_width = self.spec_chroma_width();
                    assert(colorspace.spec_byte_length(row * width) == row
                        * colorspace.spec_byte_length(width)) by (nonlinear_arith);
                    assert(colorspace.spec_byte_length(row * width + width) == (row + 1)
                        * colorspace.spec_byte_length(width)) by (nonlinear_arith);
                    assert(colorspace.spec_byte_length(chroma_row * chroma_width) == chroma_row
                        * colorspace.spec_byte_length(chroma_width)) by (nonlinear_arith);
                    assert(colorspace.spec_byte_length(chroma_row * chroma_width + chroma_width)
                        == (chroma_row + 1) * colorspace.spec_byte_length(chroma_width))
                        by (nonlinear_arith);
                    assert(row * width >= 0 && chroma_row * chroma_width >= 0)
                        by (nonlinear_arith)
                        requires
                            width >= 0,
                            chroma_width >= 0,
                    ;
                    lemma_plane_window(frame.y@, colorspace, row * width, width);
                    lemma_plane_window(
                        frame.u@,
                        colorspace,
                        chroma_row * chroma_width,
                        chroma_width,
                    );
                    lemma_plane_window(
                        frame.v@,
                        colorspace,
                        chroma_row * chroma_width,
                        chroma_width,
                    );
                }
                Ok(cut)
            },
            _ => Err(Error::PlaneTooShort),
        }
    }

    /// The pairs of coded pixels of two frames, row by row.
    pub fn pairs(&self, frame1: Frame, frame2: Frame) -> (rows: Result<
        Vec<Vec<(SampleTriple, SampleTriple)>>,
        Error,
    >)
        requires
            self.wf(),
        ensures
            rows.is_ok() <==> self.holds(frame1) && self.holds(frame2),
            rows.is_err() ==> rows.unwrap_err() == Error::PlaneTooShort,
            rows.is_ok() ==> {
                &&& rows.unwrap()@.len() == self.height
                &&& forall|r: int|
                    0 <= r < self.height ==> (#[trigger] rows.unwrap()@[r])@.len()
                        == self.spec_row_width()
                &&& forall|r: int, x: int|
                    0 <= r < self.height && 0 <= x < self.spec_row_width() ==> (
                    #[trigger] rows.unwrap()@[r]@[x]) == (
                        self.pixel(frame1, r, x),
                        self.pixel(frame2, r, x),
                    )
            },
    {
        let mut rows: Vec<Vec<(SampleTriple, SampleTriple)>> = Vec::new();
        let mut r: usize = 0;
        while r < self.height
            invariant
                self.wf(),
                r <= self.height,
                rows@.len() == r,
                r > 0 ==> self.holds_row(frame1, r - 1) && self.holds_row(frame2, r - 1),
                forall|k: int| 0 <= k < r ==> (#[trigger] rows@[k])@.len() == self.spec_row_width(),
                forall|k: int, x: int|
                    0 <= k < r && 0 <= x < self.spec_row_width() ==> (#[trigger] rows@[k]@[x]) == (
                        self.pixel(frame1, k, x),
                        self.pixel(frame2, k, x),
                    ),
            decreases self.height - r,
        {
            proof {
                if self.holds(frame1) {
                    self.lemma_holds_earlier_rows(frame1, self.height - 1, r as int);
                }
                if self.holds(frame2) {
                    self.lemma_holds_earlier_rows(frame2, self.height - 1, r as int);
                }
            }
            let row1 = match self.row(frame1, r) {
                Ok(row) => row,
                Err(refused) => {
                    return Err(refused);
                },
            };
            let row2 = match self.row(frame2, r) {
                Ok(row) => row,
                Err(refused) => {
                    return Err(refused);
                },
            };
            match self.kernel.apply(row1, row2) {
                Ok(pairs) => {
                    rows.push(pairs);
                },
                Err(refused) => {
                    return Err(refused);
                },
            }
            r += 1;
        }
        Ok(rows)
    }
}

} // verus!
