//! Exact parsing of plain decimal number text (`-?digits(.digits)?`) into
//! a [`Ratio`].
//!
//! The grammar and the value of a text are specified directly over the
//! byte sequence: the integer part is read as a base-ten numeral, the
//! fractional part scales the denominator by a power of ten. Texts whose
//! value or denominator would leave the range of an exact threshold
//! rational are rejected as out of range rather than rounded.

use vstd::prelude::*;

use crate::ratio::{lemma_mul_bound, limit_in_range, ratio_wf, Ratio, LIMIT_BOUND};
use crate::sentry::ConfigParseError;

verus! {

/// The byte is an ASCII decimal digit.
pub open spec fn is_digit(b: u8) -> bool {
    48 <= b <= 57
}

/// Every byte of the sequence is an ASCII decimal digit.
pub open spec fn all_digits(s: Seq<u8>) -> bool {
    forall|i: int| 0 <= i < s.len() ==> is_digit(#[trigger] s[i])
}

/// The value of a sequence of digit bytes read as a base-ten numeral.
pub open spec fn digits_val(s: Seq<u8>) -> int
    decreases s.len(),
{
    if s.len() == 0 {
        0
    } else {
        digits_val(s.drop_last()) * 10 + (s.last() - 48)
    }
}

/// Ten to the `n`-th power.
pub open spec fn pow10(n: nat) -> int
    decreases n,
{
    if n == 0 {
        1
    } else {
        10 * pow10((n - 1) as nat)
    }
}

/// Index of the first byte that is no digit, or the length when every
/// byte is one.
pub open spec fn first_non_digit(s: Seq<u8>) -> int
    decreases s.len(),
{
    if s.len() == 0 {
        0
    } else if !is_digit(s[0]) {
        0
    } else {
        1 + first_non_digit(s.drop_first())
    }
}

/// The unsigned body of a decimal text: one or more digits, optionally
/// followed by a dot and one or more further digits.
pub open spec fn unsigned_wf(s: Seq<u8>) -> bool {
    let i = first_non_digit(s);
    if i == s.len() {
        s.len() >= 1
    } else {
        s[i] == 46 && i >= 1 && i + 1 < s.len() && all_digits(s.skip(i + 1))
    }
}

/// Denominator of an unsigned decimal body: ten to the number of
/// fractional digits.
pub open spec fn unsigned_den(s: Seq<u8>) -> int {
    let i = first_non_digit(s);
    if i == s.len() {
        1
    } else {
        pow10((s.len() - i - 1) as nat)
    }
}

/// Numerator of an unsigned decimal body: the numeral with the dot
/// removed.
pub open spec fn unsigned_num(s: Seq<u8>) -> int {
    let i = first_non_digit(s);
    if i == s.len() {
        digits_val(s)
    } else {
        digits_val(s.take(i)) * pow10((s.len() - i - 1) as nat) + digits_val(s.skip(i + 1))
    }
}

/// The whole text is a plain decimal number, optionally preceded by a
/// minus sign.
pub open spec fn is_decimal_text(s: Seq<u8>) -> bool {
    if s.len() >= 1 && s[0] == 45 {
        unsigned_wf(s.skip(1))
    } else {
        unsigned_wf(s)
    }
}

/// Numerator of a decimal text, carrying the sign.
pub open spec fn decimal_num(s: Seq<u8>) -> int {
    if s.len() >= 1 && s[0] == 45 {
        -unsigned_num(s.skip(1))
    } else {
        unsigned_num(s)
    }
}

/// Denominator of a decimal text.
pub open spec fn decimal_den(s: Seq<u8>) -> int {
    if s.len() >= 1 && s[0] == 45 {
        unsigned_den(s.skip(1))
    } else {
        unsigned_den(s)
    }
}

/// What parsing a threshold text yields: the exact rational for a plain
/// decimal whose numerator and denominator stay within [`LIMIT_BOUND`],
/// and the precise error otherwise.
pub open spec fn text_outcome(s: Seq<u8>) -> Result<Ratio, ConfigParseError> {
    if !is_decimal_text(s) {
        Result::Err(ConfigParseError::InvalidNumber)
    } else if decimal_num(s) > LIMIT_BOUND || decimal_num(s) < -LIMIT_BOUND || decimal_den(s)
        > LIMIT_BOUND {
        Result::Err(ConfigParseError::OutOfRange)
    } else {
        Result::Ok(Ratio { num: decimal_num(s) as i128, den: decimal_den(s) as i128 })
    }
}

proof fn lemma_digits_val_nonneg(s: Seq<u8>)
    requires
        all_digits(s),
    ensures
        digits_val(s) >= 0,
    decreases s.len(),
{
    if s.len() > 0 {
        assert forall|i: int| 0 <= i < s.drop_last().len() implies is_digit(
            #[trigger] s.drop_last()[i],
        ) by {
            assert(s.drop_last()[i] == s[i]);
        }
        lemma_digits_val_nonneg(s.drop_last());
    }
}

/// Reading more digits never shrinks the numeral.
proof fn lemma_digits_prefix_le(s: Seq<u8>, i: int)
    requires
        all_digits(s),
        0 <= i <= s.len(),
    ensures
        0 <= digits_val(s.take(i)) <= digits_val(s),
    decreases s.len() - i,
{
    assert forall|k: int| 0 <= k < s.take(i).len() implies is_digit(#[trigger] s.take(i)[k]) by {
        assert(s.take(i)[k] == s[k]);
    }
    lemma_digits_val_nonneg(s.take(i));
    if i == s.len() {
        assert(s.take(i) =~= s);
    } else {
        assert(s.take(i + 1).drop_last() =~= s.take(i));
        assert(digits_val(s.take(i + 1)) == digits_val(s.take(i)) * 10 + (s[i] - 48));
        lemma_digits_prefix_le(s, i + 1);
    }
}

proof fn lemma_pow10_pos(n: nat)
    ensures
        pow10(n) >= 1,
    decreases n,
{
    if n > 0 {
        lemma_pow10_pos((n - 1) as nat);
    }
}

proof fn lemma_pow10_mono(a: nat, b: nat)
    requires
        a <= b,
    ensures
        pow10(a) <= pow10(b),
    decreases b,
{
    if a < b {
        lemma_pow10_mono(a, (b - 1) as nat);
        lemma_pow10_pos((b - 1) as nat);
    }
}

/// A scan that saw digits up to `i` and stopped there pins down
/// `first_non_digit`.
proof fn lemma_first_non_digit_at(s: Seq<u8>, i: int)
    requires
        0 <= i <= s.len(),
        forall|k: int| 0 <= k < i ==> is_digit(#[trigger] s[k]),
        i < s.len() ==> !is_digit(s[i]),
    ensures
        first_non_digit(s) == i,
    decreases i,
{
    if i == 0 {
    } else {
        assert(is_digit(s[0]));
        let t = s.drop_first();
        assert forall|k: int| 0 <= k < i - 1 implies is_digit(#[trigger] t[k]) by {
            assert(t[k] == s[k + 1]);
        }
        assert(i - 1 < t.len() ==> !is_digit(t[i - 1])) by {
            if i - 1 < t.len() {
                assert(t[i - 1] == s[i]);
            }
        }
        lemma_first_non_digit_at(t, i - 1);
    }
}

/// Scaling a non-negative numeral by at least one never shrinks it.
proof fn lemma_mul_ge_self(x: int, p: int)
    by (nonlinear_arith)
    requires
        x >= 0,
        p >= 1,
    ensures
        x * p >= x,
{
}

/// Parse the plain decimal text `t` into an exact rational whose
/// components stay within the threshold range, reporting a text that is
/// no plain decimal, or one too large or too precise, exactly as
/// [`text_outcome`] says.
pub fn parse_decimal(t: &Vec<u8>) -> (r: Result<Ratio, ConfigParseError>)
    ensures
        r == text_outcome(t@),
        r matches Result::Ok(q) ==> ratio_wf(q) && limit_in_range(q),
{
    let len: usize = t.len();
    let neg: bool = len >= 1 && t[0] == 45;
    let start: usize = if neg {
        1
    } else {
        0
    };
    let ghost body: Seq<u8> = t@.skip(start as int);
    proof {
        if !neg {
            assert(t@.skip(0) =~= t@);
        }
        assert(is_decimal_text(t@) == unsigned_wf(body));
    }

    // Scan the digits of the integer part.
    let mut i: usize = start;
    while i < len && 48 <= t[i] && t[i] <= 57
        invariant
            start <= i <= len,
            len == t@.len(),
            start <= 1,
            body == t@.skip(start as int),
            forall|k: int| start <= k < i ==> is_digit(#[trigger] t@[k]),
        decreases len - i,
    {
        i = i + 1;
    }
    proof {
        assert forall|k: int| 0 <= k < i - start implies is_digit(#[trigger] body[k]) by {
            assert(body[k] == t@[k + start]);
        }
        if i < len {
            assert(body[i - start] == t@[i as int]);
        }
        lemma_first_non_digit_at(body, i - start as int);
    }

    if i == len {
        // Digits only: the body must be non-empty.
        if i == start {
            return Result::Err(ConfigParseError::InvalidNumber);
        }
    } else if t[i] != 46 {
        // Some byte that is neither digit nor dot.
        return Result::Err(ConfigParseError::InvalidNumber);
    } else if i == start {
        // A dot with no integer digits before it.
        return Result::Err(ConfigParseError::InvalidNumber);
    } else if i + 1 == len {
        // A dot with no fractional digits after it.
        return Result::Err(ConfigParseError::InvalidNumber);
    } else {
        // Scan the digits of the fractional part.
        let mut j: usize = i + 1;
        while j < len && 48 <= t[j] && t[j] <= 57
            invariant
                i + 1 <= j <= len,
                len == t@.len(),
                forall|k: int| i + 1 <= k < j ==> is_digit(#[trigger] t@[k]),
            decreases len - j,
        {
            j = j + 1;
        }
        if j < len {
            proof {
                assert(body.skip(i - start + 1)[j - i - 1] == t@[j as int]);
            }
            return Result::Err(ConfigParseError::InvalidNumber);
        }
        proof {
            assert forall|m: int| 0 <= m < body.skip(i - start + 1).len() implies is_digit(
                #[trigger] body.skip(i - start + 1)[m],
            ) by {
                assert(body.skip(i - start + 1)[m] == t@[m + i + 1]);
            }
        }
    }
    assert(unsigned_wf(body));

    let int_end: usize = i;
    let ghost int_part: Seq<u8> = body.take(int_end - start as int);
    let ghost frac_part: Seq<u8> = if int_end < len {
        body.skip(int_end - start + 1)
    } else {
        Seq::<u8>::empty()
    };

    // Accumulate the integer part, rejecting a numeral beyond the range.
    let mut acc: i128 = 0;
    let mut k: usize = start;
    while k < int_end
        invariant
            start <= k <= int_end <= len,
            len == t@.len(),
            start <= 1,
            (start == 1) == (t@.len() >= 1 && t@[0] == 45),
            body == t@.skip(start as int),
            int_part == body.take(int_end - start as int),
            unsigned_wf(body),
            first_non_digit(body) == int_end - start,
            int_end < len ==> frac_part == body.skip(int_end - start + 1),
            int_end < len ==> all_digits(frac_part),
            int_end == len ==> frac_part == Seq::<u8>::empty(),
            forall|m: int| start <= m < int_end ==> is_digit(#[trigger] t@[m]),
            acc == digits_val(body.take(k - start as int)),
            0 <= acc <= LIMIT_BOUND,
        decreases int_end - k,
    {
        let d: u8 = t[k] - 48;
        let acc2: i128 = acc * 10 + d as i128;
        proof {
            assert(body.take(k - start + 1).drop_last() =~= body.take(k - start as int));
            assert(body.take(k - start + 1).last() == t@[k as int]);
        }
        if acc2 > LIMIT_BOUND {
            proof {
                if start == 0 {
                    assert(t@.skip(0) =~= t@);
                }
                assert forall|m: int| 0 <= m < int_part.len() implies is_digit(
                    #[trigger] int_part[m],
                ) by {
                    assert(int_part[m] == t@[m + start]);
                }
                lemma_digits_prefix_le(int_part, k - start + 1);
                assert(int_part.take(k - start + 1) =~= body.take(k - start + 1));
                lemma_digits_val_nonneg(frac_part);
                if int_end < len {
                    lemma_pow10_pos((body.len() - (int_end - start) - 1) as nat);
                    lemma_mul_ge_self(digits_val(int_part), unsigned_den(body));
                } else {
                    assert(body.take(int_end - start as int) =~= body);
                }
                assert(unsigned_num(body) > LIMIT_BOUND);
            }
            return Result::Err(ConfigParseError::OutOfRange);
        }
        acc = acc2;
        k = k + 1;
    }
    proof {
        if int_end == len {
            assert(body.take(int_end - start as int) =~= body);
        }
    }

    // Accumulate the fractional part, growing the denominator one power
    // of ten per digit.
    let mut den: i128 = 1;
    let mut accf: i128 = 0;
    if int_end < len {
        let mut j: usize = int_end + 1;
        while j < len
            invariant
                int_end + 1 <= j <= len,
                len == t@.len(),
                start <= 1,
                (start == 1) == (t@.len() >= 1 && t@[0] == 45),
                start <= int_end < len,
                body == t@.skip(start as int),
                frac_part == body.skip(int_end - start + 1),
                unsigned_wf(body),
                first_non_digit(body) == int_end - start,
                all_digits(frac_part),
                forall|m: int| int_end + 1 <= m < len ==> is_digit(#[trigger] t@[m]),
                accf == digits_val(frac_part.take(j - int_end - 1)),
                den == pow10((j - int_end - 1) as nat),
                0 <= accf < den,
                den <= LIMIT_BOUND,
            decreases len - j,
        {
            if den > LIMIT_BOUND / 10 {
                proof {
                    if start == 0 {
                        assert(t@.skip(0) =~= t@);
                    }
                    lemma_pow10_mono((j - int_end - 1 + 1) as nat, frac_part.len());
                    assert(unsigned_den(body) == pow10(frac_part.len()));
                    assert(pow10((j - int_end - 1 + 1) as nat) == 10 * pow10(
                        (j - int_end - 1) as nat,
                    ));
                }
                return Result::Err(ConfigParseError::OutOfRange);
            }
            let d: u8 = t[j] - 48;
            proof {
                assert(frac_part.take(j - int_end - 1 + 1).drop_last() =~= frac_part.take(
                    j - int_end - 1,
                ));
                assert(frac_part.take(j - int_end - 1 + 1).last() == t@[j as int]);
            }
            den = den * 10;
            accf = accf * 10 + d as i128;
            j = j + 1;
        }
        proof {
            assert(frac_part.take(len - int_end - 1) =~= frac_part);
        }
    }

    proof {
        if int_end < len {
            assert(unsigned_den(body) == pow10(frac_part.len()));
            assert(frac_part.len() == len - int_end - 1);
        }
        lemma_mul_bound(acc as int, den as int, LIMIT_BOUND as int, LIMIT_BOUND as int);
    }
    let scaled: i128 = acc * den + accf;
    proof {
        assert(unsigned_num(body) == scaled as int);
        assert(unsigned_den(body) == den as int);
    }
    if scaled > LIMIT_BOUND {
        return Result::Err(ConfigParseError::OutOfRange);
    }
    let num: i128 = if neg {
        -scaled
    } else {
        scaled
    };
    Result::Ok(Ratio { num, den })
}

} // verus!
