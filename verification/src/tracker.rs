//! Running peak of the magnitude over the process lifetime.
//!
//! The peak starts at zero, is folded with each new magnitude by taking the
//! maximum, and is never reset.

use vstd::prelude::*;

verus! {

/// The larger of the current peak and a new magnitude.
pub open spec fn peak_max(p: u32, m: u32) -> u32 {
    if m > p {
        m
    } else {
        p
    }
}

/// The peak reached after folding a whole sequence of magnitudes into an
/// initial peak value.
pub open spec fn peak_fold(init: u32, mags: Seq<u32>) -> u32
    decreases mags.len(),
{
    if mags.len() == 0 {
        init
    } else {
        peak_max(peak_fold(init, mags.drop_last()), mags.last())
    }
}

/// Tracks the largest magnitude seen so far.
#[derive(Clone, Copy, PartialEq, Eq, Structural, Debug)]
pub struct PeakTracker {
    pub peak: u32,
}

impl PeakTracker {
    /// A fresh tracker starts at a peak of zero.
    pub fn new() -> (t: PeakTracker)
        ensures
            t.peak == 0,
    {
        PeakTracker { peak: 0 }
    }

    /// Folds one magnitude into the peak. The peak never falls, and after
    /// the update it is at least the magnitude just seen.
    pub fn update(&mut self, m: u32)
        ensures
            final(self).peak == peak_max(old(self).peak, m),
            final(self).peak >= old(self).peak,
            final(self).peak >= m,
    {
        if m > self.peak {
            self.peak = m;
        }
    }
}

/// One step of the fold never lowers the peak: for any sequence of
/// magnitudes, the peak after the first `i` of them is at least the peak
/// after the first `i - 1`.
pub proof fn lemma_peak_step_nondecreasing(init: u32, mags: Seq<u32>, i: int)
    requires
        0 < i <= mags.len(),
    ensures
        peak_fold(init, mags.take(i - 1)) <= peak_fold(init, mags.take(i)),
{
    assert(mags.take(i).drop_last() =~= mags.take(i - 1));
    assert(peak_fold(init, mags.take(i)) == peak_max(
        peak_fold(init, mags.take(i - 1)),
        mags.take(i).last(),
    ));
}

/// The sequence of peaks is non-decreasing as a whole: a later prefix of
/// the magnitude sequence never yields a smaller peak than an earlier one.
pub proof fn lemma_peak_fold_monotone(init: u32, mags: Seq<u32>, i: int, j: int)
    requires
        0 <= i <= j <= mags.len(),
    ensures
        peak_fold(init, mags.take(i)) <= peak_fold(init, mags.take(j)),
    decreases j - i,
{
    if i < j {
        lemma_peak_fold_monotone(init, mags, i, j - 1);
        lemma_peak_step_nondecreasing(init, mags, j);
    }
}

} // verus!
