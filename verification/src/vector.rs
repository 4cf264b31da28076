//! The eight-wide row kernel: the same pairs as the scalar kernel, gathered
//! eight positions at a time.

use vstd::prelude::*;
use vstd::slice::slice_subrange;
use crate::colorspace::Colorspace;
use crate::error::Error;
use crate::row::{chroma_position, row_pairs, DeltaEScalar, FrameRow};
use crate::sample::{plane_sample, plane_sample_count, sample_at, SampleTriple};

verus! {

/// Eight neighbouring pixels of one frame, one component per array.
#[derive(Copy, Clone, Debug)]
pub struct Lanes {
    pub y: [u16; 8],
    pub u: [u16; 8],
    pub v: [u16; 8],
}

impl Lanes {
    /// The pixel in lane `l`.
    pub open spec fn lane(self, l: int) -> SampleTriple {
        SampleTriple { y: self.y@[l], u: self.u@[l], v: self.v@[l] }
    }

    /// The pixel in lane `l`.
    pub fn get(&self, l: usize) -> (pixel: SampleTriple)
        requires
            l < 8,
        ensures
            pixel == self.lane(l as int),
    {
        SampleTriple { y: self.y[l], u: self.u[l], v: self.v[l] }
    }
}

/// A row as the eight-wide kernel sees it: whole blocks of eight positions,
/// then the fewer than eight positions that are left.
#[derive(Debug)]
pub struct VectorRow {
    pub blocks: Vec<(Lanes, Lanes)>,
    pub tail: Vec<(SampleTriple, SampleTriple)>,
}

impl View for VectorRow {
    type V = Seq<(SampleTriple, SampleTriple)>;

    /// The row position by position: the lanes of each block in order, then
    /// the tail.
    open spec fn view(&self) -> Seq<(SampleTriple, SampleTriple)> {
        Seq::new(
            8 * self.blocks@.len() + self.tail@.len(),
            |x: int|
                if x < 8 * self.blocks@.len() {
                    (self.blocks@[x / 8].0.lane(x % 8), self.blocks@[x / 8].1.lane(x % 8))
                } else {
                    self.tail@[x - 8 * self.blocks@.len()]
                },
        )
    }
}

impl VectorRow {
    /// The row as one sequence of pairs.
    pub fn flatten(&self) -> (pairs: Vec<(SampleTriple, SampleTriple)>)
        ensures
            pairs@ == self@,
    {
        let mut pairs: Vec<(SampleTriple, SampleTriple)> = Vec::new();
        let mut b: usize = 0;
        while b < self.blocks.len()
            invariant
                b <= self.blocks@.len(),
                pairs@.len() == 8 * b,
                forall|x: int| 0 <= x < 8 * b ==> pairs@[x] == self@[x],
            decreases self.blocks@.len() - b,
        {
            let block = &self.blocks[b];
            let mut l: usize = 0;
            while l < 8
                invariant
                    l <= 8,
                    b < self.blocks@.len(),
                    *block == self.blocks@[b as int],
                    pairs@.len() == 8 * b + l,
                    forall|x: int| 0 <= x < 8 * b + l ==> pairs@[x] == self@[x],
                decreases 8 - l,
            {
                assert((8 * b + l) / 8 == b && (8 * b + l) % 8 == l) by (nonlinear_arith)
                    requires
                        l < 8,
                ;
                pairs.push((block.0.get(l), block.1.get(l)));
                l += 1;
            }
            b += 1;
        }
        let mut t: usize = 0;
        while t < self.tail.len()
            invariant
                t <= self.tail@.len(),
                pairs@.len() == 8 * self.blocks@.len() + t,
                forall|x: int| 0 <= x < 8 * self.blocks@.len() + t ==> pairs@[x] == self@[x],
            decreases self.tail@.len() - t,
        {
            pairs.push(self.tail[t]);
            t += 1;
        }
        assert(pairs@ =~= self@);
        pairs
    }
}

/// Eight luma samples, one per lane.
fn load_luma(chunk: &[u8], colorspace: Colorspace) -> (lanes: [u16; 8])
    requires
        plane_sample_count(chunk@, colorspace.spec_bytes_per_sample() as int) >= 8,
    ensures
        forall|l: int|
            0 <= l < 8 ==> lanes@[l] == plane_sample(
                chunk@,
                colorspace.spec_bytes_per_sample() as int,
                l,
            ),
{
    [
        sample_at(chunk, colorspace, 0),
        sample_at(chunk, colorspace, 1),
        sample_at(chunk, colorspace, 2),
        sample_at(chunk, colorspace, 3),
        sample_at(chunk, colorspace, 4),
        sample_at(chunk, colorspace, 5),
        sample_at(chunk, colorspace, 6),
        sample_at(chunk, colorspace, 7),
    ]
}

/// Four chroma samples, each in two neighbouring lanes.
fn load_chroma(chunk: &[u8], colorspace: Colorspace) -> (lanes: [u16; 8])
    requires
        plane_sample_count(chunk@, colorspace.spec_bytes_per_sample() as int) >= 4,
    ensures
        forall|l: int|
            0 <= l < 8 ==> lanes@[l] == plane_sample(
                chunk@,
                colorspace.spec_bytes_per_sample() as int,
                l / 2,
            ),
{
    let c0: u16 = sample_at(chunk, colorspace, 0);
    let c1: u16 = sample_at(chunk, colorspace, 1);
    let c2: u16 = sample_at(chunk, colorspace, 2);
    let c3: u16 = sample_at(chunk, colorspace, 3);
    [c0, c0, c1, c1, c2, c2, c3, c3]
}

/// A plane cut off before sample `from` holds the samples from `from` on,
/// each one unchanged.
proof fn lemma_plane_suffix(bytes: Seq<u8>, colorspace: Colorspace, from: int, end: int)
    requires
        0 <= from,
        colorspace.spec_byte_length(from) <= end <= bytes.len(),
    ensures
        ({
            let size = colorspace.spec_bytes_per_sample() as int;
            let rest = bytes.subrange(colorspace.spec_byte_length(from), end);
            &&& plane_sample_count(rest, size) + from == plane_sample_count(
                bytes.subrange(0, end),
                size,
            )
            &&& forall|i: int|
                0 <= i < plane_sample_count(rest, size) ==> plane_sample(rest, size, i)
                    == plane_sample(bytes, size, from + i)
        }),
{
}

/// The pixels of positions `8 * block` to `8 * block + 7` of a row in which
/// one chroma sample serves two positions.
fn load_block(row: FrameRow, colorspace: Colorspace, block: usize) -> (lanes: Lanes)
    requires
        colorspace.x_decimation == 1,
        8 * (block + 1) <= row.width(colorspace),
    ensures
        forall|l: int| 0 <= l < 8 ==> lanes.lane(l) == row.triple(colorspace, 8 * block + l),
{
    // The lengths of the planes bound every offset computed below.
    let luma_len: usize = row.y.len();
    let u_len: usize = row.u.len();
    let v_len: usize = row.v.len();
    let wide: bool = colorspace.bytes_per_sample() != 1;
    let luma_from: usize = if wide { 16 * block } else { 8 * block };
    let luma_to: usize = if wide { 16 * block + 16 } else { 8 * block + 8 };
    let chroma_from: usize = if wide { 8 * block } else { 4 * block };
    let chroma_to: usize = if wide { 8 * block + 8 } else { 4 * block + 4 };
    proof {
        lemma_plane_suffix(row.y@, colorspace, 8 * block, luma_to as int);
        lemma_plane_suffix(row.u@, colorspace, 4 * block, chroma_to as int);
        lemma_plane_suffix(row.v@, colorspace, 4 * block, chroma_to as int);
    }
    let lanes = Lanes {
        y: load_luma(slice_subrange(row.y, luma_from, luma_to), colorspace),
        u: load_chroma(slice_subrange(row.u, chroma_from, chroma_to), colorspace),
        v: load_chroma(slice_subrange(row.v, chroma_from, chroma_to), colorspace),
    };
    assert forall|l: int| 0 <= l < 8 implies lanes.lane(l) == row.triple(
        colorspace,
        8 * block + l,
    ) by {
        assert(chroma_position(colorspace, 8 * block + l) == 4 * block + l / 2);
    }
    lanes
}

/// What is left of a row after its first `blocks` blocks of eight positions.
fn row_tail<'a>(row: FrameRow<'a>, colorspace: Colorspace, blocks: usize) -> (rest: FrameRow<'a>)
    requires
        colorspace.x_decimation == 1,
        8 * blocks <= row.width(colorspace),
    ensures
        rest.y@.len() == row.y@.len() - colorspace.spec_byte_length(8 * blocks),
        rest.u@.len() == row.u@.len() - colorspace.spec_byte_length(4 * blocks),
        rest.v@.len() == row.v@.len() - colorspace.spec_byte_length(4 * blocks),
        rest.width(colorspace) == row.width(colorspace) - 8 * blocks,
        forall|x: int|
            0 <= x < rest.width(colorspace) ==> rest.triple(colorspace, x) == row.triple(
                colorspace,
                8 * blocks + x,
            ),
{
    let luma_len: usize = row.y.len();
    let u_len: usize = row.u.len();
    let v_len: usize = row.v.len();
    let wide: bool = colorspace.bytes_per_sample() != 1;
    let luma_from: usize = if wide { 16 * blocks } else { 8 * blocks };
    let chroma_from: usize = if wide { 8 * blocks } else { 4 * blocks };
    proof {
        lemma_plane_suffix(row.y@, colorspace, 8 * blocks, luma_len as int);
        lemma_plane_suffix(row.u@, colorspace, 4 * blocks, u_len as int);
        lemma_plane_suffix(row.v@, colorspace, 4 * blocks, v_len as int);
        assert(row.y@.subrange(0, luma_len as int) =~= row.y@);
        assert(row.u@.subrange(0, u_len as int) =~= row.u@);
        assert(row.v@.subrange(0, v_len as int) =~= row.v@);
    }
    let rest = FrameRow {
        y: slice_subrange(row.y, luma_from, luma_len),
        u: slice_subrange(row.u, chroma_from, u_len),
        v: slice_subrange(row.v, chroma_from, v_len),
    };
    assert forall|x: int| 0 <= x < rest.width(colorspace) implies rest.triple(colorspace, x)
        == row.triple(colorspace, 8 * blocks + x) by {
        assert(chroma_position(colorspace, 8 * blocks + x) == 4 * blocks + x / 2);
    }
    rest
}

/// The kernel that gathers eight positions at a time. It exists for rows in
/// which one chroma sample serves two luma samples.
#[derive(Copy, Clone, Debug, PartialEq, Eq, Structural)]
pub struct DeltaEAVX2 {
    pub bit_depth: usize,
}

impl DeltaEAVX2 {
    /// The colour format of the rows that this kernel reads.
    pub open spec fn spec_colorspace(self) -> Colorspace {
        Colorspace { bit_depth: self.bit_depth, x_decimation: 1 }
    }

    /// The colour format of the rows that this kernel reads.
    pub fn colorspace(&self) -> (colorspace: Colorspace)
        ensures
            colorspace == self.spec_colorspace(),
    {
        Colorspace { bit_depth: self.bit_depth, x_decimation: 1 }
    }

    /// Assembles the same pairs as the scalar kernel, in blocks of eight
    /// positions as long as eight are left, and one by one after that. Rows
    /// whose planes differ in length are refused.
    pub fn delta_e_row_avx2(&self, row1: FrameRow, row2: FrameRow) -> (gathered: Result<
        VectorRow,
        Error,
    >)
        ensures
            gathered.is_ok() <==> row1.same_shape(row2),
            gathered.is_ok() ==> {
                &&& gathered.unwrap()@ == row_pairs(self.spec_colorspace(), row1, row2)
                &&& gathered.unwrap().blocks@.len() == row1.width(self.spec_colorspace()) / 8
                &&& gathered.unwrap().tail@.len() == row1.width(self.spec_colorspace()) % 8
            },
            gathered.is_err() ==> gathered.unwrap_err() == Error::LengthMismatch,
    {
        if row1.y.len() != row2.y.len() || row1.u.len() != row2.u.len() || row1.v.len()
            != row2.v.len() {
            return Err(Error::LengthMismatch);
        }
        let colorspace = self.colorspace();
        let size: usize = colorspace.bytes_per_sample();
        let luma: usize = row1.y.len() / size;
        let chroma_u: usize = row1.u.len() / size;
        let chroma_v: usize = row1.v.len() / size;
        let fewer: usize = if chroma_u <= chroma_v { chroma_u } else { chroma_v };
        let count: usize = if luma / 8 <= fewer / 4 { luma / 8 } else { fewer / 4 };
        assert(count == row1.width(colorspace) / 8);
        assert(row2.width(colorspace) == row1.width(colorspace));
        let mut blocks: Vec<(Lanes, Lanes)> = Vec::new();
        let mut block: usize = 0;
        while block < count
            invariant
                block <= count,
                colorspace.x_decimation == 1,
                8 * count <= row1.width(colorspace),
                row2.width(colorspace) == row1.width(colorspace),
                blocks@.len() == block,
                forall|b: int, l: int|
                    0 <= b < block && 0 <= l < 8 ==> {
                        &&& (#[trigger] blocks@[b].0.lane(l)) == row1.triple(colorspace, 8 * b + l)
                        &&& blocks@[b].1.lane(l) == row2.triple(colorspace, 8 * b + l)
                    },
            decreases count - block,
        {
            let first = load_block(row1, colorspace, block);
            let second = load_block(row2, colorspace, block);
            blocks.push((first, second));
            block += 1;
        }
        let rest1 = row_tail(row1, colorspace, count);
        let rest2 = row_tail(row2, colorspace, count);
        match (DeltaEScalar { colorspace }).delta_e_row_scalar(rest1, rest2) {
            Ok(tail) => {
                let gathered = VectorRow { blocks, tail };
                assert(gathered@ =~= row_pairs(colorspace, row1, row2)) by {
                    assert forall|x: int| 0 <= x < 8 * count implies gathered@[x] == row_pairs(
                        colorspace,
                        row1,
                        row2,
                    )[x] by {
                        let b = x / 8;
                        let l = x % 8;
                        assert(gathered.blocks@[b].0.lane(l) == row1.triple(
                            colorspace,
                            8 * b + l,
                        ));
                    }
                }
                Ok(gathered)
            },
            Err(refused) => Err(refused),
        }
    }
}

} // verus!
