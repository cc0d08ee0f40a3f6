use vstd::arithmetic::div_mod::{lemma_div_is_ordered, lemma_div_multiples_vanish};
use vstd::prelude::*;

verus! {

/// Bhaskara's rational approximation of the sine, in milli-units, of an
/// angle given in milli-degrees within `[0, 180000]`. It is exact at 0, 30,
/// 90, 150 and 180 degrees and within about two milli-units everywhere else,
/// and it needs only integer arithmetic.
pub open spec fn sin_mdeg_spec(m: int) -> int {
    let p = m * (180_000 - m);
    4000 * p / (40_500_000_000 - p)
}

/// Sine of a signed angle in milli-degrees within `[-180000, 180000]`.
pub open spec fn sin_signed_spec(a: int) -> int {
    if a >= 0 {
        sin_mdeg_spec(a)
    } else {
        -sin_mdeg_spec(-a)
    }
}

/// Cosine of a signed angle in milli-degrees within `[-90000, 90000]`,
/// through the identity `cos x == sin (90 degrees - |x|)`.
pub open spec fn cos_signed_spec(a: int) -> int {
    if a >= 0 {
        sin_mdeg_spec(90_000 - a)
    } else {
        sin_mdeg_spec(90_000 + a)
    }
}

/// The sine approximation stays within `[0, 1000]` on `[0, 180000]`.
pub proof fn lemma_sin_bounds(m: int)
    requires
        0 <= m <= 180_000,
    ensures
        0 <= sin_mdeg_spec(m) <= 1000,
{
    let p = m * (180_000 - m);
    assert(0 <= m * (180_000 - m) <= 8_100_000_000) by (nonlinear_arith)
        requires 0 <= m <= 180_000;
    let num = 4000 * p;
    let den = 40_500_000_000 - p;
    assert(num / den >= 0) by {
        lemma_div_is_ordered(0, num, den);
    }
    assert(num / den <= 1000) by {
        assert(num <= 1000 * den);
        lemma_div_is_ordered(num, 1000 * den, den);
        lemma_div_multiples_vanish(1000, den);
    }
}

/// On `[30000, 150000]` milli-degrees the sine approximation is at least
/// one half; in particular the cosine of any angle within 60 degrees of
/// vertical is at least 500 milli-units.
pub proof fn lemma_sin_at_least_half(m: int)
    requires
        30_000 <= m <= 150_000,
    ensures
        sin_mdeg_spec(m) >= 500,
{
    let p = m * (180_000 - m);
    assert(4_500_000_000 <= m * (180_000 - m) <= 8_100_000_000) by (nonlinear_arith)
        requires 30_000 <= m <= 150_000;
    let num = 4000 * p;
    let den = 40_500_000_000 - p;
    assert(num >= 500 * den);
    assert(num / den >= 500) by {
        lemma_div_is_ordered(500 * den, num, den);
        lemma_div_multiples_vanish(500, den);
    }
}

/// Executable sine in milli-units of an angle in milli-degrees.
pub fn sin_mdeg(m: i64) -> (r: i64)
    requires
        0 <= m <= 180_000,
    ensures
        r == sin_mdeg_spec(m as int),
        0 <= r <= 1000,
{
    proof {
        assert(0 <= m * (180_000 - m) <= 8_100_000_000) by (nonlinear_arith)
            requires 0 <= m <= 180_000;
    }
    let p = m * (180_000 - m);
    let num = 4000 * p;
    let den = 40_500_000_000 - p;
    let q = (num as u64) / (den as u64);
    proof {
        lemma_sin_bounds(m as int);
    }
    q as i64
}

/// Executable sine of a signed angle in milli-degrees.
pub fn sin_signed(a: i64) -> (r: i64)
    requires
        -180_000 <= a <= 180_000,
    ensures
        r == sin_signed_spec(a as int),
        -1000 <= r <= 1000,
{
    if a >= 0 {
        sin_mdeg(a)
    } else {
        let s = sin_mdeg(-a);
        -s
    }
}

/// Executable cosine of a signed angle in milli-degrees.
pub fn cos_signed(a: i64) -> (r: i64)
    requires
        -90_000 <= a <= 90_000,
    ensures
        r == cos_signed_spec(a as int),
        0 <= r <= 1000,
{
    if a >= 0 {
        sin_mdeg(90_000 - a)
    } else {
        sin_mdeg(90_000 + a)
    }
}

} // verus!
