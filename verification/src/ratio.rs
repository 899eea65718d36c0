//! Exact rational numbers with `i128` components.
//!
//! Every quantity the engine works with (sample statistics, signal scores,
//! policy thresholds) is an exact rational `num / den` with a positive
//! denominator. Comparisons in specifications are stated over the
//! mathematical value by cross-multiplication, which never overflows in
//! ghost code; executable comparisons are proved to stay within `i128`
//! through explicit magnitude bounds.

use vstd::prelude::*;

verus! {

/// Largest magnitude allowed for the components of a signal-score rational.
/// Wide enough to hold the exact variance of the largest admissible sample
/// window, and small enough that a cross-multiplication against two
/// threshold rationals still fits in an `i128`.
pub const SIGNAL_BOUND: i128 = 100_000_000_000_000_000_000_000;

/// Largest magnitude allowed for the components of a policy-threshold
/// rational.
pub const LIMIT_BOUND: i128 = 1_000_000;

/// An exact rational number `num / den`. The denominator is kept positive
/// ([`ratio_wf`]); the numerator carries the sign.
#[derive(Clone, Copy, Debug, PartialEq, Eq, Structural)]
pub struct Ratio {
    pub num: i128,
    pub den: i128,
}

/// Well-formedness: the denominator is positive.
pub open spec fn ratio_wf(r: Ratio) -> bool {
    r.den > 0
}

/// The value of `a` is at most the value of `b`, in cross-multiplied form.
/// Meaningful whenever both denominators are positive.
pub open spec fn ratio_le(a: Ratio, b: Ratio) -> bool {
    a.num * b.den <= b.num * a.den
}

/// Both components of `r` are bounded in magnitude by `b`.
pub open spec fn ratio_bounded(r: Ratio, b: int) -> bool {
    -b <= r.num <= b && 0 < r.den <= b
}

/// `r` is small enough to stand as a signal score in an executable
/// threshold comparison.
pub open spec fn signal_in_range(r: Ratio) -> bool {
    ratio_bounded(r, SIGNAL_BOUND as int)
}

/// `r` is small enough to stand as a policy threshold in an executable
/// threshold comparison.
pub open spec fn limit_in_range(r: Ratio) -> bool {
    ratio_bounded(r, LIMIT_BOUND as int)
}

impl Ratio {
    /// The rational `num / den`.
    pub fn new(num: i128, den: i128) -> (r: Ratio)
        requires
            den > 0,
        ensures
            r.num == num,
            r.den == den,
    {
        Ratio { num, den }
    }

    /// The rational zero.
    pub fn zero() -> (r: Ratio)
        ensures
            r.num == 0,
            r.den == 1,
    {
        Ratio { num: 0, den: 1 }
    }
}

/// A product of two factors is bounded by the product of bounds on the
/// factors.
pub proof fn lemma_mul_bound(a: int, b: int, ca: int, cb: int)
    by (nonlinear_arith)
    requires
        -ca <= a <= ca,
        -cb <= b <= cb,
        0 <= ca,
        0 <= cb,
    ensures
        -(ca * cb) <= a * b <= ca * cb,
{
}

/// A product of two positive factors is positive and bounded by the product
/// of their upper bounds.
pub proof fn lemma_mul_pos_bound(a: int, b: int, ca: int, cb: int)
    by (nonlinear_arith)
    requires
        0 < a <= ca,
        0 < b <= cb,
    ensures
        0 < a * b <= ca * cb,
{
}

/// A square is non-negative and bounded by the square of a bound on its
/// root.
pub proof fn lemma_square_bound(x: int, c: int)
    by (nonlinear_arith)
    requires
        -c <= x <= c,
        0 <= c,
    ensures
        0 <= x * x <= c * c,
{
}

} // verus!
