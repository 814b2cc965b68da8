//! The threshold policy: a pure decision over the aggregate, and the one
//! place that may touch a session's persistent factor.
//!
//! The aggregate `sum / count` exceeds the threshold exactly when
//! `sum > threshold * count` (the count is positive), so the decision is
//! stated and computed without any rounding. When the policy fires it
//! multiplies the factor by the configured multiplier exactly once; otherwise
//! it leaves the factor alone.

use crate::aggregate::Mean;
use crate::config::ThresholdConfig;
use crate::ratio::Ratio;
use vstd::prelude::*;

verus! {

/// The aggregate `m` lies strictly above `threshold`, by cross
/// multiplication with the positive count.
pub open spec fn exceeds(m: Mean, threshold: i64) -> bool {
    m.sum > threshold * m.count
}

/// Decides whether the aggregate exceeds the threshold. Pure: no state is
/// read or written besides the arguments.
pub fn decide(m: &Mean, threshold: i64) -> (fired: bool)
    ensures
        fired == exceeds(*m, threshold),
{
    proof {
        assert(-0x8000_0000_0000_0000_0000_0000_0000_0000 <= (threshold as int) * (
        m.count as int) < 0x8000_0000_0000_0000_0000_0000_0000_0000) by (nonlinear_arith)
            requires
                -0x8000_0000_0000_0000 <= threshold as int <= 0x7FFF_FFFF_FFFF_FFFF,
                0 <= m.count as int <= 0xFFFF_FFFF_FFFF_FFFF,
        ;
    }
    m.sum > (threshold as i128) * (m.count as i128)
}

/// Applies the policy: decides, and on a firing decision multiplies the
/// referenced factor by the configured multiplier, exactly once. The bounds
/// in the precondition only keep the factor representable. The simulated
/// remediation delay is the caller's side effect, not part of the decision.
pub fn apply(m: &Mean, config: &ThresholdConfig, factor: &mut Ratio) -> (fired: bool)
    requires
        old(factor).wf(),
        config.wf(),
        i64::MIN <= old(factor).num * config.multiplier.num <= i64::MAX,
        old(factor).den * config.multiplier.den <= i64::MAX,
    ensures
        final (factor).wf(),
        fired == exceeds(*m, config.threshold),
        fired ==> final (factor).num == old(factor).num * config.multiplier.num,
        fired ==> final (factor).den == old(factor).den * config.multiplier.den,
        !fired ==> *final (factor) == *old(factor),
{
    let fired = decide(m, config.threshold);
    if fired {
        *factor = factor.mul(config.multiplier);
    }
    fired
}

} // verus!
