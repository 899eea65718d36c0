//! Signal normalization: maps summary statistics plus an externally
//! supplied load value onto a three-dimensional stress vector, every
//! dimension on a "higher = worse" scale.

use vstd::prelude::*;

use crate::metrics::EntropyMetrics;
use crate::ratio::Ratio;

verus! {

/// Input signals for the Sentry engine. Each score is an exact rational;
/// larger means worse. Negative scores are legal ("better than ideal") and
/// never cause arithmetic errors.
#[derive(Clone, Copy, Debug, PartialEq, Eq, Structural)]
pub struct SentrySignals {
    /// Overall "entropy health" score (the variance of the window).
    pub entropy_score: Ratio,
    /// Instability or jitter in the signal.
    pub jitter_score: Ratio,
    /// A simple load indicator (e.g. CPU, queue depth, utilization).
    pub load_score: Ratio,
}

impl SentrySignals {
    /// Construct signals from summary statistics and a raw load value.
    ///
    /// The mapping is deliberately simple: the entropy score is the
    /// variance, the jitter score is the jitter, and the load value passes
    /// through unchanged (its scaling is the caller's concern).
    pub fn from_metrics(metrics: &EntropyMetrics, load: Ratio) -> (s: SentrySignals)
        ensures
            s.entropy_score == metrics.variance,
            s.jitter_score == metrics.jitter,
            s.load_score == load,
    {
        SentrySignals {
            entropy_score: metrics.variance,
            jitter_score: metrics.jitter,
            load_score: load,
        }
    }

    /// Construct signals directly from already-normalized scores,
    /// bypassing the aggregation pipeline.
    pub fn from_raw(entropy_score: Ratio, jitter_score: Ratio, load_score: Ratio) -> (s:
        SentrySignals)
        ensures
            s.entropy_score == entropy_score,
            s.jitter_score == jitter_score,
            s.load_score == load_score,
    {
        SentrySignals { entropy_score, jitter_score, load_score }
    }
}

/// All three scores have positive denominators.
pub open spec fn signals_wf(s: SentrySignals) -> bool {
    s.entropy_score.den > 0 && s.jitter_score.den > 0 && s.load_score.den > 0
}

/// All three scores are small enough for an executable threshold
/// comparison.
pub open spec fn signals_in_range(s: SentrySignals) -> bool {
    crate::ratio::signal_in_range(s.entropy_score)
        && crate::ratio::signal_in_range(s.jitter_score)
        && crate::ratio::signal_in_range(s.load_score)
}

} // verus!
