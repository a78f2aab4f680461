//! Sample histories: windows of fixed length over the most recent samples.

use std::collections::VecDeque;
use vstd::prelude::*;

verus! {

/// A window over the samples of one metric, oldest first. It is filled with zeroes when
/// it is made, and each new sample drives the oldest one out, so its length never
/// changes.
pub struct HistorySeries {
    samples: VecDeque<u64>,
}

impl View for HistorySeries {
    type V = Seq<u64>;

    closed spec fn view(&self) -> Seq<u64> {
        self.samples@
    }
}

/// The window that `sample` leaves behind: the oldest sample gone, the new one at the
/// end. A window of length zero has no room and stays empty.
pub open spec fn shifted(window: Seq<u64>, sample: u64) -> Seq<u64> {
    if window.len() == 0 {
        window
    } else {
        window.drop_first().push(sample)
    }
}

/// The window after all of `samples` have been pushed, first to last.
pub open spec fn shifted_by_all(window: Seq<u64>, samples: Seq<u64>) -> Seq<u64>
    decreases samples.len(),
{
    if samples.len() == 0 {
        window
    } else {
        shifted(shifted_by_all(window, samples.drop_last()), samples.last())
    }
}

/// The newest sample of a window, or zero where it holds none.
pub open spec fn newest(window: Seq<u64>) -> u64 {
    if window.len() == 0 {
        0
    } else {
        window.last()
    }
}

impl HistorySeries {
    /// A window of `capacity` samples, all zero.
    pub fn new(capacity: usize) -> (series: Self)
        ensures
            series@ == Seq::new(capacity as nat, |i: int| 0u64),
    {
        let mut samples: VecDeque<u64> = VecDeque::new();
        let mut filled: usize = 0;
        while filled < capacity
            invariant
                filled <= capacity,
                samples@ == Seq::new(filled as nat, |i: int| 0u64),
            decreases capacity - filled,
        {
            samples.push_back(0);
            filled += 1;
        }
        HistorySeries { samples }
    }

    /// Takes in a sample and drops the oldest one.
    pub fn push(&mut self, value: u64)
        ensures
            final(self)@ == shifted(old(self)@, value),
            final(self)@.len() == old(self)@.len(),
    {
        if self.samples.len() > 0 {
            self.samples.pop_front();
            self.samples.push_back(value);
        }
    }

    /// The most recent sample, or zero where the window has no room for any.
    pub fn latest(&self) -> (value: u64)
        ensures
            value == newest(self@),
    {
        let len: usize = self.samples.len();
        if len == 0 {
            0
        } else {
            self.samples[len - 1]
        }
    }

    /// How many samples the window holds, which is the capacity it was made with.
    pub fn len(&self) -> (len: usize)
        ensures
            len == self@.len(),
    {
        self.samples.len()
    }

    /// The samples, oldest first.
    pub fn to_vec(&self) -> (samples: Vec<u64>)
        ensures
            samples@ == self@,
    {
        let mut samples: Vec<u64> = Vec::new();
        let mut i: usize = 0;
        while i < self.samples.len()
            invariant
                i <= self.samples@.len(),
                samples@ == self.samples@.take(i as int),
            decreases self.samples@.len() - i,
        {
            samples.push(self.samples[i]);
            i += 1;
        }
        samples
    }
}

/// Pushing never changes the length of a window, however many samples come. Once as
/// many have come as the window is long, it holds the most recent of them and nothing
/// else.
pub proof fn lemma_pushes_keep_length(window: Seq<u64>, samples: Seq<u64>)
    ensures
        shifted_by_all(window, samples).len() == window.len(),
        samples.len() >= window.len() ==> shifted_by_all(window, samples) == samples.subrange(
            samples.len() - window.len(),
            samples.len() as int,
        ),
        samples.len() < window.len() ==> shifted_by_all(window, samples) == window.subrange(
            samples.len() as int,
            window.len() as int,
        ) + samples,
    decreases samples.len(),
{
    if samples.len() > 0 {
        lemma_pushes_keep_length(window, samples.drop_last());
    }
}

} // verus!
