//! Statistics aggregation: reduces a finite window of fixed-point samples to
//! exact summary statistics (mean, population variance, mean absolute
//! deviation).
//!
//! A window is a vector of integer values over one shared positive `scale`:
//! entry `v` stands for the sample `v / scale`. With a common scale the
//! mean, the population variance and the jitter of the window are exact
//! rationals:
//!
//! * `mean     = total / (n * scale)`
//! * `variance = sum_i (n * v_i - total)^2 / (n^3 * scale^2)`
//! * `jitter   = sum_i |n * v_i - total|  / (n^2 * scale)`
//!
//! where `total` is the sum of the raw values and `n` the window length.

use vstd::prelude::*;

use crate::ratio::{
    lemma_mul_pos_bound, lemma_mul_bound, lemma_square_bound, ratio_wf, signal_in_range, Ratio,
};

verus! {

/// Largest admissible magnitude of a raw sample value.
pub const SAMPLE_BOUND: i64 = 100_000;

/// Largest admissible sample scale.
pub const SCALE_BOUND: u64 = 100_000;

/// Largest admissible window length.
pub const WINDOW_BOUND: usize = 10_000;

/// A single sampled value with a logical timestamp. The value is a
/// fixed-point integer; the scale it is understood against accompanies the
/// whole window, not the single snapshot. The tick is external bookkeeping
/// and plays no part in any computation.
#[derive(Clone, Copy, Debug, PartialEq, Eq, Structural)]
pub struct MetricSnapshot {
    pub tick: u64,
    pub value: i64,
}

/// Aggregate statistics over a short window of samples, as exact rationals.
#[derive(Clone, Copy, Debug, PartialEq, Eq, Structural)]
pub struct EntropyMetrics {
    pub mean: Ratio,
    pub variance: Ratio,
    /// A simple "jitter" measure: average absolute deviation from the mean.
    pub jitter: Ratio,
    /// Number of samples included.
    pub sample_count: usize,
}

/// Sum of the raw values of a window.
pub open spec fn sum_of(s: Seq<i64>) -> int
    decreases s.len(),
{
    if s.len() == 0 {
        0
    } else {
        sum_of(s.drop_last()) + s.last()
    }
}

/// Sum of the squared scaled deviations `(n * v - total)^2` over a window,
/// for a fixed length `n` and raw total `total`.
pub open spec fn sum_sq_dev(s: Seq<i64>, n: int, total: int) -> int
    decreases s.len(),
{
    if s.len() == 0 {
        0
    } else {
        sum_sq_dev(s.drop_last(), n, total) + (n * s.last() - total) * (n * s.last() - total)
    }
}

/// Sum of the absolute scaled deviations `|n * v - total|` over a window,
/// for a fixed length `n` and raw total `total`.
pub open spec fn sum_abs_dev(s: Seq<i64>, n: int, total: int) -> int
    decreases s.len(),
{
    if s.len() == 0 {
        0
    } else {
        sum_abs_dev(s.drop_last(), n, total) + abs_of(n * s.last() - total)
    }
}

/// Absolute value of an integer.
pub open spec fn abs_of(x: int) -> int {
    if x < 0 {
        -x
    } else {
        x
    }
}

/// Every raw value of the window is within the admissible magnitude.
pub open spec fn samples_in_range(s: Seq<i64>) -> bool {
    forall|i: int| 0 <= i < s.len() ==> -SAMPLE_BOUND <= #[trigger] s[i] <= SAMPLE_BOUND
}

impl EntropyMetrics {
    /// Reduce a window of raw fixed-point samples (values over one shared
    /// `scale`) to its exact summary statistics.
    ///
    /// The empty window reduces to all-zero statistics rather than to an
    /// undefined value, so downstream arithmetic stays total. For a
    /// non-empty window the variance and the jitter are non-negative, and
    /// every statistic is small enough to feed the policy engine.
    pub fn from_samples(samples: &Vec<i64>, scale: u64) -> (m: EntropyMetrics)
        requires
            1 <= scale <= SCALE_BOUND,
            samples@.len() <= WINDOW_BOUND,
            samples_in_range(samples@),
        ensures
            m.sample_count == samples@.len(),
            ratio_wf(m.mean) && ratio_wf(m.variance) && ratio_wf(m.jitter),
            signal_in_range(m.mean) && signal_in_range(m.variance) && signal_in_range(m.jitter),
            m.variance.num >= 0,
            m.jitter.num >= 0,
            samples@.len() == 0 ==> m.mean == (Ratio { num: 0, den: 1 })
                && m.variance == (Ratio { num: 0, den: 1 }) && m.jitter == (Ratio { num: 0, den: 1 }),
            samples@.len() > 0 ==> {
                let n = samples@.len() as int;
                let total = sum_of(samples@);
                m.mean.num == total && m.mean.den == n * scale
                    && m.variance.num == sum_sq_dev(samples@, n, total)
                    && m.variance.den == n * n * n * scale * scale
                    && m.jitter.num == sum_abs_dev(samples@, n, total)
                    && m.jitter.den == n * n * scale
            },
    {
        let n: usize = samples.len();
        if n == 0 {
            return EntropyMetrics {
                mean: Ratio::zero(),
                variance: Ratio::zero(),
                jitter: Ratio::zero(),
                sample_count: 0,
            };
        }

        let ghost full: Seq<i64> = samples@;
        let n128: i128 = n as i128;
        let s128: i128 = scale as i128;

        let mut total: i128 = 0;
        let mut i: usize = 0;
        while i < n
            invariant
                0 <= i <= n,
                n == samples@.len(),
                samples@ == full,
                samples_in_range(full),
                total == sum_of(full.take(i as int)),
                -100_000 * (i as int) <= total <= 100_000 * (i as int),
            decreases n - i,
        {
            proof {
                assert(full.take(i + 1).drop_last() =~= full.take(i as int));
            }
            total = total + samples[i] as i128;
            i = i + 1;
        }
        proof {
            assert(full.take(n as int) =~= full);
        }

        let mut ssq: i128 = 0;
        let mut sabs: i128 = 0;
        let mut j: usize = 0;
        while j < n
            invariant
                0 <= j <= n,
                n == samples@.len(),
                samples@ == full,
                samples_in_range(full),
                1 <= n <= WINDOW_BOUND,
                n128 == n as int,
                total == sum_of(full),
                -1_000_000_000 <= total <= 1_000_000_000,
                ssq == sum_sq_dev(full.take(j as int), n as int, total as int),
                sabs == sum_abs_dev(full.take(j as int), n as int, total as int),
                0 <= ssq <= (j as int) * 4_000_000_000_000_000_000,
                0 <= sabs <= (j as int) * 2_000_000_000,
            decreases n - j,
        {
            let v: i64 = samples[j];
            proof {
                lemma_mul_bound(n as int, v as int, 10_000, 100_000);
            }
            let d: i128 = n128 * (v as i128) - total;
            proof {
                lemma_square_bound(d as int, 2_000_000_000);
            }
            let dd: i128 = d * d;
            let ad: i128 = if d < 0 {
                -d
            } else {
                d
            };
            proof {
                assert(full.take(j + 1).drop_last() =~= full.take(j as int));
            }
            ssq = ssq + dd;
            sabs = sabs + ad;
            j = j + 1;
        }
        proof {
            assert(full.take(n as int) =~= full);
        }

        proof {
            lemma_mul_pos_bound(n as int, scale as int, 10_000, 100_000);
        }
        let mean_den: i128 = n128 * s128;
        proof {
            lemma_mul_pos_bound(n as int, n as int, 10_000, 10_000);
        }
        let nn: i128 = n128 * n128;
        proof {
            lemma_mul_pos_bound(nn as int, n as int, 100_000_000, 10_000);
        }
        let nnn: i128 = nn * n128;
        proof {
            lemma_mul_pos_bound(nnn as int, scale as int, 1_000_000_000_000, 100_000);
        }
        let nnn_s: i128 = nnn * s128;
        proof {
            lemma_mul_pos_bound(nnn_s as int, scale as int, 100_000_000_000_000_000, 100_000);
        }
        let var_den: i128 = nnn_s * s128;
        proof {
            lemma_mul_pos_bound(nn as int, scale as int, 100_000_000, 100_000);
        }
        let jit_den: i128 = nn * s128;

        EntropyMetrics {
            mean: Ratio { num: total, den: mean_den },
            variance: Ratio { num: ssq, den: var_den },
            jitter: Ratio { num: sabs, den: jit_den },
            sample_count: n,
        }
    }
}

} // verus!
