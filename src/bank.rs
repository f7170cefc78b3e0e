//! The sample bank: a fixed-capacity timeline of captured audio.
use vstd::prelude::*;

use crate::LooperError;

verus! {

/// One audio sample, in fixed point (`FULL_SCALE` is unit amplitude).
pub type Sample = i32;

/// The sample value that stands for an amplitude of 1.0.
pub const FULL_SCALE: i32 = 8388608;

/// The largest capacity a bank may have. It bounds the number of layers, so
/// that the sum of every layer at one position fits in an `i64`.
pub const MAX_CAPACITY: usize = 0xFFFF_FFFF;

/// The value stored at `index`, or silence where nothing can be stored.
pub open spec fn sample_at(bank: Seq<Sample>, index: int) -> Sample {
    if 0 <= index < bank.len() {
        bank[index]
    } else {
        0
    }
}

/// `bank` with `samples` copied in from `start` on.
pub open spec fn written(bank: Seq<Sample>, start: int, samples: Seq<Sample>) -> Seq<Sample> {
    Seq::new(
        bank.len(),
        |i: int|
            if start <= i < start + samples.len() {
                samples[i - start]
            } else {
                bank[i]
            },
    )
}

/// Fixed-capacity store of captured audio, indexed by timeline position.
/// It is allocated once and never grows; positions never written hold silence.
pub struct SampleBank {
    samples: Vec<Sample>,
}

impl View for SampleBank {
    type V = Seq<Sample>;

    closed spec fn view(&self) -> Seq<Sample> {
        self.samples@
    }
}

impl SampleBank {
    /// Allocates a bank of `capacity` samples of silence.
    pub fn new(capacity: usize) -> (r: SampleBank)
        requires
            capacity <= MAX_CAPACITY,
        ensures
            r@ == Seq::new(capacity as nat, |i: int| 0 as Sample),
    {
        let mut samples: Vec<Sample> = Vec::with_capacity(capacity);
        let mut i: usize = 0;
        while i < capacity
            invariant
                i <= capacity,
                samples@ == Seq::new(i as nat, |j: int| 0 as Sample),
            decreases capacity - i,
        {
            samples.push(0);
            i = i + 1;
            assert(samples@ =~= Seq::new(i as nat, |j: int| 0 as Sample));
        }
        SampleBank { samples }
    }

    /// The fixed number of samples the bank holds.
    pub fn capacity(&self) -> (r: usize)
        ensures
            r == self@.len(),
    {
        self.samples.len()
    }

    /// The sample at `index`; silence for an index past the capacity.
    pub fn read(&self, index: usize) -> (r: Sample)
        ensures
            r == sample_at(self@, index as int),
    {
        if index < self.samples.len() {
            self.samples[index]
        } else {
            0
        }
    }

    /// Copies `samples` into the bank from `start` on. When the last written
    /// position would lie past the capacity, nothing is written and
    /// `CapacityExceeded` is returned.
    pub fn write_at(&mut self, start: usize, samples: &[Sample]) -> (r: Result<(), LooperError>)
        ensures
            r is Ok <==> start + samples@.len() <= old(self)@.len(),
            r is Ok ==> final(self)@ == written(old(self)@, start as int, samples@),
            r is Err ==> r == Err::<(), LooperError>(LooperError::CapacityExceeded)
                && final(self)@ == old(self)@,
    {
        let cap = self.samples.len();
        if start > cap || samples.len() > cap - start {
            return Err(LooperError::CapacityExceeded);
        }
        let mut k: usize = 0;
        while k < samples.len()
            invariant
                start + samples@.len() <= cap,
                cap == self.samples@.len(),
                k <= samples@.len(),
                self.samples@ == written(old(self)@, start as int, samples@.take(k as int)),
            decreases samples@.len() - k,
        {
            self.samples[start + k] = samples[k];
            k = k + 1;
            assert(self.samples@ =~= written(old(self)@, start as int, samples@.take(k as int)));
        }
        assert(samples@.take(k as int) =~= samples@);
        Ok(())
    }
}

} // verus!
