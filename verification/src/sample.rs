//! Blocks of amplitude samples in fixed point.

use vstd::prelude::*;

verus! {

/// The sample value that stands for the amplitude `1.0`. Amplitude `-1.0` is
/// `-FULL_SCALE`, silence is `0`.
pub const FULL_SCALE: i32 = 32_768;

/// One block of single-channel amplitude samples, in capture order, as
/// delivered by one invocation of the capture callback. Each sample is the
/// amplitude in units of `1 / FULL_SCALE`.
#[derive(Debug, PartialEq, Eq)]
pub struct SampleBlock {
    pub samples: Vec<i32>,
}

impl View for SampleBlock {
    type V = Seq<i32>;

    open spec fn view(&self) -> Seq<i32> {
        self.samples@
    }
}

impl SampleBlock {
    /// Wraps the samples of one callback invocation.
    pub fn new(samples: Vec<i32>) -> (block: SampleBlock)
        ensures
            block@ == samples@,
    {
        SampleBlock { samples }
    }

    /// Number of samples in the block.
    pub fn len(&self) -> (n: usize)
        ensures
            n == self@.len(),
    {
        self.samples.len()
    }
}

} // verus!
