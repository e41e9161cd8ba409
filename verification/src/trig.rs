//! Integer trigonometry on milliturn angles.
//!
//! An angle is a fraction of a full turn in thousandths: 250 milliturns is a
//! quarter turn. Sine and cosine are computed with Bhaskara's rational
//! approximation, scaled so that the result is in milli (1000 means 1.0).
//! The approximation is exact at every multiple of a quarter turn and within
//! about 2 milli elsewhere; all that the callers rely on is the formula
//! itself and the `[-1000, 1000]` range.

use vstd::prelude::*;

verus! {

/// Bhaskara's approximation of `sin(pi * t / 500) * 1000` for `t` in `[0, 500]`.
pub open spec fn sin_half_spec(t: int) -> int {
    (16000 * (t * (500 - t))) / (1250000 - 4 * (t * (500 - t)))
}

/// `sin` of an angle in milliturns, in milli.
pub open spec fn sin_milli_spec(t: int) -> int {
    if t <= 500 {
        sin_half_spec(t)
    } else {
        -sin_half_spec(t - 500)
    }
}

/// `cos` of an angle in milliturns, in milli: a quarter-turn shift of `sin`.
pub open spec fn cos_milli_spec(t: int) -> int {
    if t < 750 {
        sin_milli_spec(t + 250)
    } else {
        sin_milli_spec(t - 750)
    }
}

/// `sin(pi * t / 500)` in milli for the first half turn.
fn sin_half(t: i64) -> (r: i64)
    requires
        0 <= t <= 500,
    ensures
        r == sin_half_spec(t as int),
        0 <= r <= 1000,
{
    proof {
        assert(0 <= t * (500 - t) <= 62500) by (nonlinear_arith)
            requires
                0 <= t <= 500,
        ;
    }
    let u: u64 = (t as u64) * (500 - t as u64);
    let num: u64 = 16000 * u;
    let den: u64 = 1250000 - 4 * u;
    proof {
        assert(num / den <= 1000) by (nonlinear_arith)
            requires
                num == 16000 * (u as int),
                den == 1250000 - 4 * (u as int),
                0 <= u <= 62500,
        ;
    }
    (num / den) as i64
}

/// Sine of an angle in milliturns.
pub fn sin_milli(t: i64) -> (r: i64)
    requires
        0 <= t < 1000,
    ensures
        r == sin_milli_spec(t as int),
        -1000 <= r <= 1000,
{
    if t <= 500 {
        sin_half(t)
    } else {
        -sin_half(t - 500)
    }
}

/// Cosine of an angle in milliturns.
pub fn cos_milli(t: i64) -> (r: i64)
    requires
        0 <= t < 1000,
    ensures
        r == cos_milli_spec(t as int),
        -1000 <= r <= 1000,
{
    if t < 750 {
        sin_milli(t + 250)
    } else {
        sin_milli(t - 750)
    }
}

} // verus!
