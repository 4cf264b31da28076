//! Counting the frames of a run.

use vstd::prelude::*;
use crate::error::Error;

verus! {

/// How many frames have been compared, and after how many to stop.
#[derive(Copy, Clone, Debug, PartialEq, Eq, Structural)]
pub struct FrameTally {
    pub frames: usize,
    pub limit: Option<usize>,
}

impl FrameTally {
    /// Whether the limit, if there is one, has been reached.
    pub open spec fn spec_done(self) -> bool {
        self.limit.is_some() && self.frames >= self.limit.unwrap()
    }

    /// A tally of no frames.
    pub fn new(limit: Option<usize>) -> (tally: FrameTally)
        ensures
            tally == (FrameTally { frames: 0, limit }),
    {
        FrameTally { frames: 0, limit }
    }

    /// Counts one compared frame and says whether another may follow. The
    /// limit is looked at only here, between frames.
    pub fn count_frame(&mut self) -> (more: bool)
        requires
            old(self).frames < usize::MAX,
        ensures
            final(self).frames == old(self).frames + 1,
            final(self).limit == old(self).limit,
            more == !final(self).spec_done(),
    {
        self.frames = self.frames + 1;
        match self.limit {
            Some(limit) => self.frames < limit,
            None => true,
        }
    }

    /// The number of frames by which the sum of the frame scores is divided.
    /// With no frame compared there is no overall score.
    pub fn divisor(&self) -> (frames: Result<usize, Error>)
        ensures
            frames.is_ok() <==> self.frames > 0,
            frames.is_ok() ==> frames.unwrap() == self.frames,
            frames.is_err() ==> frames.unwrap_err() == Error::NoFrames,
    {
        if self.frames == 0 {
            Err(Error::NoFrames)
        } else {
            Ok(self.frames)
        }
    }
}

} // verus!
