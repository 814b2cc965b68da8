//! Immutable configuration values: the threshold policy parameters and the
//! collection window.
//!
//! Sample values, the threshold, and the generator bounds are fixed-point
//! integers in one caller-chosen scale (for instance thousandths), so that
//! every comparison and every mean in the library is exact.

use crate::ratio::Ratio;
use vstd::prelude::*;

verus! {

/// The threshold policy of one session: fire when the aggregate exceeds
/// `threshold`, then multiply the session factor by `multiplier` and pause
/// for `action_delay_ms` (the pause is the caller's business; the library
/// only decides and updates the factor).
#[derive(Clone, Copy, Debug, PartialEq, Eq, Structural)]
pub struct ThresholdConfig {
    /// The firing bound, in the same fixed-point scale as the samples.
    pub threshold: i64,
    /// The exact factor applied when the policy fires; at least one.
    pub multiplier: Ratio,
    /// How long the simulated remediation action takes.
    pub action_delay_ms: u64,
}

impl ThresholdConfig {
    /// The multiplier must be a well-formed ratio of at least one.
    pub open spec fn wf(&self) -> bool {
        self.multiplier.wf() && self.multiplier.at_least_one()
    }

    /// Builds a policy configuration.
    pub fn new(threshold: i64, multiplier: Ratio, action_delay_ms: u64) -> (c: ThresholdConfig)
        requires
            multiplier.wf(),
            multiplier.at_least_one(),
        ensures
            c.threshold == threshold,
            c.multiplier == multiplier,
            c.action_delay_ms == action_delay_ms,
            c.wf(),
    {
        ThresholdConfig { threshold, multiplier, action_delay_ms }
    }
}

/// One collection window: collect one sample per poll until the window
/// duration has elapsed.
#[derive(Clone, Copy, Debug, PartialEq, Eq, Structural)]
pub struct CollectionWindow {
    /// The soft wall-clock bound of the whole window.
    pub duration_ms: u64,
    /// The pause between two samples; positive.
    pub poll_interval_ms: u64,
}

impl CollectionWindow {
    /// The poll interval must be positive, or the window would never advance.
    pub open spec fn wf(&self) -> bool {
        self.poll_interval_ms > 0
    }

    /// Builds a collection window.
    pub fn new(duration_ms: u64, poll_interval_ms: u64) -> (w: CollectionWindow)
        requires
            poll_interval_ms > 0,
        ensures
            w.duration_ms == duration_ms,
            w.poll_interval_ms == poll_interval_ms,
            w.wf(),
    {
        CollectionWindow { duration_ms, poll_interval_ms }
    }

    /// How many samples one full window yields: one per poll interval while
    /// the elapsed time is still under the duration, so the count is the
    /// duration divided by the interval, rounded up. A zero duration yields
    /// no samples at all.
    pub open spec fn sample_count(&self) -> int {
        if self.duration_ms == 0 {
            0
        } else {
            (self.duration_ms - 1) / (self.poll_interval_ms as int) + 1
        }
    }

    /// How many samples are actually produced under an optional external
    /// cancellation budget: the window is cut short when the budget runs out
    /// before the window does.
    pub open spec fn effective_count(&self, cancel_after: Option<u64>) -> int {
        match cancel_after {
            Option::None => self.sample_count(),
            Option::Some(c) => if c < self.sample_count() {
                c as int
            } else {
                self.sample_count()
            },
        }
    }

    /// Whether the cancellation budget cuts the window short.
    pub open spec fn cancelled_by(&self, cancel_after: Option<u64>) -> bool {
        match cancel_after {
            Option::None => false,
            Option::Some(c) => c < self.sample_count(),
        }
    }

    /// Computes `sample_count` executably.
    pub fn samples_planned(&self) -> (k: u64)
        requires
            self.wf(),
        ensures
            k == self.sample_count(),
    {
        if self.duration_ms == 0 {
            0
        } else {
            (self.duration_ms - 1) / self.poll_interval_ms + 1
        }
    }
}

} // verus!
