//! The aggregator: the exact arithmetic mean of a finite sample sequence.
//!
//! A mean is kept as the pair of its numerator (the exact sum) and its
//! denominator (the sample count) instead of as a rounded quotient, so the
//! contract `sum == sum_seq(s) && count == s.len()` pins the mean of a buffer
//! down completely: as a rational number the aggregate is exactly
//! `sum(s) / len(s)`. An empty sequence has no mean; asking for one is an
//! error, never a silent undefined value.

use crate::errors::SessionError;
use vstd::prelude::*;

verus! {

/// The sum of a sequence of fixed-point samples, as an unbounded integer.
pub open spec fn sum_seq(s: Seq<i64>) -> int
    decreases s.len(),
{
    if s.len() == 0 {
        0
    } else {
        sum_seq(s.drop_last()) + s.last()
    }
}

/// The exact mean `sum / count` of a non-empty sample sequence, as a pair.
#[derive(Clone, Copy, Debug, PartialEq, Eq, Structural)]
pub struct Mean {
    /// The exact sum of the samples.
    pub sum: i128,
    /// How many samples there were; positive for a mean that exists.
    pub count: usize,
}

impl Mean {
    /// `self` is the mean of the samples `s`: the pair denotes the rational
    /// number `sum_seq(s) / s.len()`.
    pub open spec fn is_mean_of(&self, s: Seq<i64>) -> bool {
        self.sum == sum_seq(s) && self.count == s.len() && s.len() > 0
    }
}

/// The sum of a concatenation is the sum of the sums.
pub proof fn lemma_sum_seq_append(a: Seq<i64>, b: Seq<i64>)
    ensures
        sum_seq(a + b) == sum_seq(a) + sum_seq(b),
    decreases b.len(),
{
    if b.len() == 0 {
        assert(a + b =~= a);
    } else {
        lemma_sum_seq_append(a, b.drop_last());
        assert((a + b).drop_last() =~= a + b.drop_last());
    }
}

/// A sequence whose samples all lie in `[lo, hi]` has its sum in
/// `[len * lo, len * hi]`.
pub proof fn lemma_sum_seq_bounds(s: Seq<i64>, lo: int, hi: int)
    requires
        forall|i: int| 0 <= i < s.len() ==> lo <= #[trigger] s[i] <= hi,
    ensures
        s.len() * lo <= sum_seq(s) <= s.len() * hi,
    decreases s.len(),
{
    if s.len() == 0 {
    } else {
        assert(forall|i: int|
            0 <= i < s.drop_last().len() ==> lo <= #[trigger] s.drop_last()[i] <= hi);
        lemma_sum_seq_bounds(s.drop_last(), lo, hi);
        assert(lo <= s.last() <= hi);
        assert((s.len() - 1) * lo + lo == s.len() * lo) by (nonlinear_arith);
        assert((s.len() - 1) * hi + hi == s.len() * hi) by (nonlinear_arith);
    }
}

/// Every sample is an `i64`, so the sum of `n` samples is bounded by
/// `n * 2^63` in magnitude.
pub proof fn lemma_sum_seq_machine_bounds(s: Seq<i64>)
    ensures
        -(s.len() * 0x8000_0000_0000_0000) <= sum_seq(s) <= s.len() * 0x8000_0000_0000_0000,
{
    assert(forall|i: int|
        0 <= i < s.len() ==> -0x8000_0000_0000_0000 <= #[trigger] s[i] <= 0x7FFF_FFFF_FFFF_FFFF);
    lemma_sum_seq_bounds(s, -0x8000_0000_0000_0000, 0x7FFF_FFFF_FFFF_FFFF);
    assert(s.len() * 0x7FFF_FFFF_FFFF_FFFF <= s.len() * 0x8000_0000_0000_0000) by (nonlinear_arith);
    assert(s.len() * (-0x8000_0000_0000_0000) == -(s.len() * 0x8000_0000_0000_0000))
        by (nonlinear_arith);
}

/// Computes the exact mean of `samples`: the sum never overflows the wide
/// accumulator because at most `usize::MAX` samples of `i64` magnitude fit
/// well inside an `i128`. An empty sequence is refused.
pub fn mean_of(samples: &Vec<i64>) -> (r: Result<Mean, SessionError>)
    ensures
        samples@.len() == 0 ==> r == Err::<Mean, SessionError>(SessionError::EmptyBuffer),
        samples@.len() > 0 ==> (r matches Ok(m) && m.is_mean_of(samples@)),
{
    let n = samples.len();
    if n == 0 {
        return Err(SessionError::EmptyBuffer);
    }
    let mut sum: i128 = 0;
    let mut i: usize = 0;
    while i < n
        invariant
            i <= n,
            n == samples@.len(),
            sum == sum_seq(samples@.subrange(0, i as int)),
        decreases n - i,
    {
        proof {
            let prefix = samples@.subrange(0, i as int);
            let next = samples@.subrange(0, i as int + 1);
            assert(next.drop_last() =~= prefix);
            assert(sum_seq(next) == sum + samples@[i as int]);
            lemma_sum_seq_machine_bounds(next);
            assert(next.len() * 0x8000_0000_0000_0000 <= 0xFFFF_FFFF_FFFF_FFFF
                * 0x8000_0000_0000_0000) by (nonlinear_arith)
                requires
                    next.len() <= 0xFFFF_FFFF_FFFF_FFFF,
            ;
        }
        sum = sum + (samples[i] as i128);
        i = i + 1;
    }
    proof {
        assert(samples@.subrange(0, n as int) =~= samples@);
    }
    Ok(Mean { sum, count: n })
}

} // verus!
