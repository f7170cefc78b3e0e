//! A clip: one capture period of audio on its way to the sample bank.
use vstd::prelude::*;

use crate::bank::Sample;

verus! {

/// One capture period's samples, tagged with their absolute position on the
/// recording timeline.
pub struct Clip {
    pub samples: Vec<Sample>,
    pub start: usize,
}

impl Clip {
    pub fn new(samples: Vec<Sample>, start: usize) -> (r: Clip)
        ensures
            r.samples@ == samples@,
            r.start == start,
    {
        Clip { samples, start }
    }
}

} // verus!
