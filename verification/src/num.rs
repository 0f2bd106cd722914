//! Small integer helpers shared by the synthesis core: division with
//! rounding half away from zero, and clamping into the signed 16-bit
//! sample range.

use vstd::prelude::*;

verus! {

/// Quotient of `a / b` rounded half away from zero, for `b > 0`.
pub open spec fn rdiv(a: int, b: int) -> int
    recommends
        b > 0,
{
    if a >= 0 {
        (2 * a + b) / (2 * b)
    } else {
        -((2 * -a + b) / (2 * b))
    }
}

/// `v` clamped into the representable range of a signed 16-bit sample.
pub open spec fn clamp_i16(v: int) -> i16 {
    if v > i16::MAX as int {
        i16::MAX
    } else if v < i16::MIN as int {
        i16::MIN
    } else {
        v as i16
    }
}

/// `v` clamped into `[0, 1]` units (one unit is a million ppm): the
/// range of a unit-scaled knob.
pub open spec fn clamp_unit(v: int) -> int {
    if v < 0 {
        0
    } else if v > 1_000_000 {
        1_000_000
    } else {
        v
    }
}

/// Clamps a knob position into `[0, 1]` units.
pub fn clamp_unit_exec(v: i64) -> (r: u32)
    ensures
        r == clamp_unit(v as int),
{
    if v < 0 {
        0
    } else if v > 1_000_000 {
        1_000_000
    } else {
        v as u32
    }
}

/// Clamping a knob twice is the same as clamping it once.
pub proof fn lemma_clamp_unit_idempotent(v: int)
    ensures
        clamp_unit(clamp_unit(v)) == clamp_unit(v),
{
}

/// Rounded division never moves the quotient by more than half a step:
/// `rdiv(a, b)` lies within `a/b ± 1/2`, so `|rdiv(a, b)| <= |a| / b`
/// rounded up; in particular a bound `|a| <= m * b` gives `|rdiv| <= m`.
pub proof fn lemma_rdiv_bounds(a: int, b: int, m: int)
    requires
        b > 0,
        m >= 0,
        -(m * b) <= a <= m * b,
    ensures
        -m <= rdiv(a, b) <= m,
{
    if a >= 0 {
        assert(2 * a + b <= 2 * m * b + b) by (nonlinear_arith)
            requires a <= m * b;
        assert((2 * a + b) / (2 * b) <= m) by (nonlinear_arith)
            requires b > 0, m >= 0, 2 * a + b <= 2 * m * b + b;
        assert((2 * a + b) / (2 * b) >= 0) by (nonlinear_arith)
            requires b > 0, a >= 0;
    } else {
        assert(2 * -a + b <= 2 * m * b + b) by (nonlinear_arith)
            requires -a <= m * b;
        assert((2 * -a + b) / (2 * b) <= m) by (nonlinear_arith)
            requires b > 0, m >= 0, 2 * -a + b <= 2 * m * b + b;
        assert((2 * -a + b) / (2 * b) >= 0) by (nonlinear_arith)
            requires b > 0, -a > 0;
    }
}

/// Rounded division of a non-negative numerator stays non-negative.
pub proof fn lemma_rdiv_nonneg(a: int, b: int)
    requires
        a >= 0,
        b > 0,
    ensures
        rdiv(a, b) >= 0,
{
    assert((2 * a + b) / (2 * b) >= 0) by (nonlinear_arith)
        requires a >= 0, b > 0;
}

/// Exact division rounds to the exact quotient: `rdiv(q * b, b) == q`.
pub proof fn lemma_rdiv_exact(q: int, b: int)
    requires
        b > 0,
    ensures
        rdiv(q * b, b) == q,
{
    if q >= 0 {
        assert((2 * (q * b) + b) / (2 * b) == q) by (nonlinear_arith)
            requires b > 0, q >= 0;
    } else {
        assert(q * b < 0) by (nonlinear_arith)
            requires b > 0, q < 0;
        assert((2 * -(q * b) + b) / (2 * b) == -q) by (nonlinear_arith)
            requires b > 0, q < 0;
    }
}

/// Division of a non-negative numerator, rounded half up, computed in
/// 128-bit arithmetic.
pub fn rdiv_u128(a: u128, b: u128) -> (r: u128)
    requires
        b > 0,
        2 * b <= u128::MAX,
        2 * a + b <= u128::MAX,
    ensures
        r == rdiv(a as int, b as int),
{
    (2 * a + b) / (2 * b)
}

/// Division rounded half away from zero, computed in 128-bit arithmetic.
pub fn rdiv_i128(a: i128, b: i128) -> (r: i128)
    requires
        b > 0,
        2 * b <= i128::MAX,
        -i128::MAX <= 2 * a - b,
        2 * a + b <= i128::MAX,
    ensures
        r == rdiv(a as int, b as int),
{
    if a >= 0 {
        (2 * a + b) / (2 * b)
    } else {
        -((2 * -a + b) / (2 * b))
    }
}

/// Clamp a wide intermediate value into the signed 16-bit sample range.
pub fn clamp_sample(v: i128) -> (r: i16)
    ensures
        r == clamp_i16(v as int),
{
    if v > i16::MAX as i128 {
        i16::MAX
    } else if v < i16::MIN as i128 {
        i16::MIN
    } else {
        v as i16
    }
}

} // verus!
