//! One scanline of two frames: the sample pairs that a row kernel compares.

use vstd::prelude::*;
use crate::colorspace::Colorspace;
use crate::error::Error;
use crate::sample::{plane_sample, plane_sample_count, plane_samples, twice, SampleTriple};

verus! {

/// The bytes of one scanline in each of a frame's three planes.
#[derive(Copy, Clone, Debug)]
pub struct FrameRow<'a> {
    pub y: &'a [u8],
    pub u: &'a [u8],
    pub v: &'a [u8],
}

/// The chroma position that serves luma position `x`: the nearest one to the
/// left, never a blend of two.
pub open spec fn chroma_position(colorspace: Colorspace, x: int) -> int {
    if colorspace.x_decimation == 1 {
        x / 2
    } else {
        x
    }
}

/// How many luma positions `count` chroma samples can serve.
pub open spec fn chroma_reach(colorspace: Colorspace, count: int) -> int {
    if colorspace.x_decimation == 1 {
        2 * count
    } else {
        count
    }
}

/// The smallest of three numbers.
pub open spec fn least(a: int, b: int, c: int) -> int {
    if a <= b && a <= c {
        a
    } else if b <= c {
        b
    } else {
        c
    }
}

impl<'a> FrameRow<'a> {
    /// Number of positions for which the row holds luma and both chroma
    /// components.
    pub open spec fn width(self, colorspace: Colorspace) -> int {
        let bytes = colorspace.spec_bytes_per_sample() as int;
        least(
            plane_sample_count(self.y@, bytes),
            chroma_reach(colorspace, plane_sample_count(self.u@, bytes)),
            chroma_reach(colorspace, plane_sample_count(self.v@, bytes)),
        )
    }

    /// The coded pixel at position `x`.
    pub open spec fn triple(self, colorspace: Colorspace, x: int) -> SampleTriple {
        let bytes = colorspace.spec_bytes_per_sample() as int;
        SampleTriple {
            y: plane_sample(self.y@, bytes, x),
            u: plane_sample(self.u@, bytes, chroma_position(colorspace, x)),
            v: plane_sample(self.v@, bytes, chroma_position(colorspace, x)),
        }
    }

    /// Whether each plane of `self` is as long as the same plane of `other`.
    pub open spec fn same_shape(self, other: FrameRow) -> bool {
        &&& self.y@.len() == other.y@.len()
        &&& self.u@.len() == other.u@.len()
        &&& self.v@.len() == other.v@.len()
    }
}

/// What a row kernel compares: for each position of the row, the pixel of the
/// first frame and the pixel of the second.
pub open spec fn row_pairs(colorspace: Colorspace, row1: FrameRow, row2: FrameRow) -> Seq<
    (SampleTriple, SampleTriple),
> {
    Seq::new(
        row1.width(colorspace) as nat,
        |x: int| (row1.triple(colorspace, x), row2.triple(colorspace, x)),
    )
}

/// A row compared with itself pairs every pixel with itself.
pub proof fn lemma_identical_rows(colorspace: Colorspace, row: FrameRow)
    ensures
        forall|x: int|
            0 <= x < row.width(colorspace) ==> (#[trigger] row_pairs(colorspace, row, row)[x]).0
                == row_pairs(colorspace, row, row)[x].1,
{
}

fn smaller(a: usize, b: usize) -> (m: usize)
    ensures
        m == if a <= b { a } else { b },
{
    if a <= b {
        a
    } else {
        b
    }
}

/// The samples of one chroma plane row, each standing under every luma
/// position that it serves.
fn chroma_samples(bytes: &[u8], colorspace: Colorspace) -> (samples: Vec<u16>)
    ensures
        samples@.len() == chroma_reach(
            colorspace,
            plane_sample_count(bytes@, colorspace.spec_bytes_per_sample() as int),
        ),
        forall|x: int|
            0 <= x < samples@.len() ==> samples@[x] == plane_sample(
                bytes@,
                colorspace.spec_bytes_per_sample() as int,
                chroma_position(colorspace, x),
            ),
{
    let coded = plane_samples(bytes, colorspace);
    if colorspace.x_decimation == 1 {
        twice(&coded)
    } else {
        coded
    }
}

/// The kernel that walks a row one position at a time.
#[derive(Copy, Clone, Debug, PartialEq, Eq, Structural)]
pub struct DeltaEScalar {
    pub colorspace: Colorspace,
}

impl DeltaEScalar {
    /// Assembles, for every position of the row, the coded pixel of each
    /// frame. Rows whose planes differ in length are refused.
    pub fn delta_e_row_scalar(&self, row1: FrameRow, row2: FrameRow) -> (pairs: Result<
        Vec<(SampleTriple, SampleTriple)>,
        Error,
    >)
        ensures
            pairs.is_ok() <==> row1.same_shape(row2),
            pairs.is_ok() ==> pairs.unwrap()@ == row_pairs(self.colorspace, row1, row2),
            pairs.is_err() ==> pairs.unwrap_err() == Error::LengthMismatch,
    {
        if row1.y.len() != row2.y.len() || row1.u.len() != row2.u.len() || row1.v.len()
            != row2.v.len() {
            return Err(Error::LengthMismatch);
        }
        let colorspace = self.colorspace;
        let y1 = plane_samples(row1.y, colorspace);
        let u1 = chroma_samples(row1.u, colorspace);
        let v1 = chroma_samples(row1.v, colorspace);
        let y2 = plane_samples(row2.y, colorspace);
        let u2 = chroma_samples(row2.u, colorspace);
        let v2 = chroma_samples(row2.v, colorspace);
        let width: usize = smaller(y1.len(), smaller(u1.len(), v1.len()));
        assert(width == row1.width(colorspace));
        assert(width == row2.width(colorspace));
        let mut pairs: Vec<(SampleTriple, SampleTriple)> = Vec::new();
        let mut x: usize = 0;
        while x < width
            invariant
                x <= width,
                width == row1.width(colorspace),
                width <= y1@.len(),
                width <= u1@.len(),
                width <= v1@.len(),
                width <= y2@.len(),
                width <= u2@.len(),
                width <= v2@.len(),
                y1@ == crate::sample::plane_samples_spec(
                    row1.y@,
                    colorspace.spec_bytes_per_sample() as int,
                ),
                y2@ == crate::sample::plane_samples_spec(
                    row2.y@,
                    colorspace.spec_bytes_per_sample() as int,
                ),
                forall|k: int|
                    0 <= k < u1@.len() ==> u1@[k] == plane_sample(
                        row1.u@,
                        colorspace.spec_bytes_per_sample() as int,
                        chroma_position(colorspace, k),
                    ),
                forall|k: int|
                    0 <= k < v1@.len() ==> v1@[k] == plane_sample(
                        row1.v@,
                        colorspace.spec_bytes_per_sample() as int,
                        chroma_position(colorspace, k),
                    ),
                forall|k: int|
                    0 <= k < u2@.len() ==> u2@[k] == plane_sample(
                        row2.u@,
                        colorspace.spec_bytes_per_sample() as int,
                        chroma_position(colorspace, k),
                    ),
                forall|k: int|
                    0 <= k < v2@.len() ==> v2@[k] == plane_sample(
                        row2.v@,
                        colorspace.spec_bytes_per_sample() as int,
                        chroma_position(colorspace, k),
                    ),
                pairs@.len() == x,
                forall|k: int|
                    0 <= k < x ==> pairs@[k] == (
                        row1.triple(colorspace, k),
                        row2.triple(colorspace, k),
                    ),
            decreases width - x,
        {
            let first = SampleTriple { y: y1[x], u: u1[x], v: v1[x] };
            let second = SampleTriple { y: y2[x], u: u2[x], v: v2[x] };
            pairs.push((first, second));
            x += 1;
        }
        assert(pairs@ =~= row_pairs(colorspace, row1, row2));
        Ok(pairs)
    }
}

} // verus!
