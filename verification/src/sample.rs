//! Coded samples: reading them from the bytes of a plane, sharing one chroma
//! sample between neighbours, and removing the coded offsets.

use vstd::prelude::*;
use crate::colorspace::Colorspace;

verus! {

/// One pixel as it is coded: luma and the two chroma components.
#[derive(Copy, Clone, Debug, PartialEq, Eq, Structural)]
pub struct SampleTriple {
    pub y: u16,
    pub u: u16,
    pub v: u16,
}

/// Number of whole samples that `bytes` holds. A trailing odd byte of a
/// two-byte plane is no sample.
pub open spec fn plane_sample_count(bytes: Seq<u8>, bytes_per_sample: int) -> int {
    if bytes_per_sample == 1 {
        bytes.len() as int
    } else {
        (bytes.len() / 2) as int
    }
}

/// The sample at position `i` of a plane: one byte, or two bytes with the low
/// byte first.
pub open spec fn plane_sample(bytes: Seq<u8>, bytes_per_sample: int, i: int) -> u16 {
    if bytes_per_sample == 1 {
        bytes[i] as u16
    } else {
        (bytes[2 * i] as int + 256 * (bytes[2 * i + 1] as int)) as u16
    }
}

/// All whole samples of a plane, in order.
pub open spec fn plane_samples_spec(bytes: Seq<u8>, bytes_per_sample: int) -> Seq<u16> {
    Seq::new(
        plane_sample_count(bytes, bytes_per_sample) as nat,
        |i: int| plane_sample(bytes, bytes_per_sample, i),
    )
}

/// Puts a low and a high byte together into one sample.
pub fn to_u16(low: u8, high: u8) -> (sample: u16)
    ensures
        sample == low as int + 256 * (high as int),
{
    let sample: u16 = ((high as u16) << 8) | (low as u16);
    assert(((high as u16) << 8) | (low as u16) == (low as u16) + 256 * (high as u16)) by (bit_vector);
    sample
}

/// Reads the sample at position `i` of a plane row.
pub fn sample_at(bytes: &[u8], colorspace: Colorspace, i: usize) -> (sample: u16)
    requires
        i < plane_sample_count(bytes@, colorspace.spec_bytes_per_sample() as int),
    ensures
        sample == plane_sample(bytes@, colorspace.spec_bytes_per_sample() as int, i as int),
{
    if colorspace.bytes_per_sample() == 1 {
        bytes[i] as u16
    } else {
        // The length of the plane bounds both offsets.
        let len: usize = bytes.len();
        to_u16(bytes[2 * i], bytes[2 * i + 1])
    }
}

/// Reads every whole sample of a plane row.
pub fn plane_samples(bytes: &[u8], colorspace: Colorspace) -> (samples: Vec<u16>)
    ensures
        samples@ == plane_samples_spec(bytes@, colorspace.spec_bytes_per_sample() as int),
{
    let mut samples: Vec<u16> = Vec::new();
    if colorspace.bytes_per_sample() == 1 {
        let mut i: usize = 0;
        while i < bytes.len()
            invariant
                i <= bytes@.len(),
                samples@.len() == i,
                forall|k: int| 0 <= k < i ==> samples@[k] == plane_sample(bytes@, 1, k),
            decreases bytes@.len() - i,
        {
            samples.push(bytes[i] as u16);
            i += 1;
        }
    } else {
        let len: usize = bytes.len();
        let count: usize = len / 2;
        let mut i: usize = 0;
        while i < count
            invariant
                i <= count,
                len == bytes@.len(),
                count == len / 2,
                samples@.len() == i,
                forall|k: int| 0 <= k < i ==> samples@[k] == plane_sample(bytes@, 2, k),
            decreases count - i,
        {
            samples.push(to_u16(bytes[2 * i], bytes[2 * i + 1]));
            i += 1;
        }
    }
    assert(samples@ =~= plane_samples_spec(bytes@, colorspace.spec_bytes_per_sample() as int));
    samples
}

/// Every sample of `samples` twice in a row, so that one chroma sample stands
/// under each of the two luma samples that share it.
///
/// The body calls `itertools::interleave` on two passes over `samples` and
/// collects what it yields. That adaptor takes from its first and its second
/// iterator in turn until both have run out, so with two passes of equal
/// length the item at position `i` is the sample at position `i / 2`. This is
/// believed, not proved.
#[verifier::external_body]
pub(crate) fn twice(samples: &Vec<u16>) -> (doubled: Vec<u16>)
    ensures
        doubled@.len() == 2 * samples@.len(),
        forall|i: int| 0 <= i < doubled@.len() ==> doubled@[i] == samples@[i / 2],
{
    itertools::interleave(samples.iter().copied(), samples.iter().copied()).collect()
}

/// A window of whole samples cut from a plane holds exactly those samples.
pub proof fn lemma_plane_window(bytes: Seq<u8>, colorspace: Colorspace, from: int, count: int)
    requires
        0 <= from,
        0 <= count,
        colorspace.spec_byte_length(from + count) <= bytes.len(),
    ensures
        ({
            let size = colorspace.spec_bytes_per_sample() as int;
            let window = bytes.subrange(
                colorspace.spec_byte_length(from),
                colorspace.spec_byte_length(from + count),
            );
            &&& plane_sample_count(window, size) == count
            &&& forall|i: int|
                0 <= i < count ==> plane_sample(window, size, i) == plane_sample(
                    bytes,
                    size,
                    from + i,
                )
        }),
{
}

impl SampleTriple {
    /// The triple with the coded black level taken from luma and the neutral
    /// level taken from both chroma components.
    pub open spec fn spec_centered(self, colorspace: Colorspace) -> (int, int, int) {
        (
            self.y as int - 16 * colorspace.spec_scale(),
            self.u as int - 128 * colorspace.spec_scale(),
            self.v as int - 128 * colorspace.spec_scale(),
        )
    }

    /// Removes the coded offsets: 16 from luma and 128 from chroma, each
    /// scaled to the bit depth.
    pub fn centered(&self, colorspace: &Colorspace) -> (centered: (i32, i32, i32))
        requires
            colorspace.wf(),
        ensures
            centered.0 == self.spec_centered(*colorspace).0,
            centered.1 == self.spec_centered(*colorspace).1,
            centered.2 == self.spec_centered(*colorspace).2,
    {
        let scale: i32 = colorspace.scale();
        (self.y as i32 - 16 * scale, self.u as i32 - 128 * scale, self.v as i32 - 128 * scale)
    }
}

} // verus!
