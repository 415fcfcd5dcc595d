//! The fixed-point amplitude model shared by all generators.
//!
//! A sample amplitude is an `i64` scaled by `AMP_ONE`, so the real interval
//! [-1.0, 1.0] becomes [-AMP_ONE, AMP_ONE]. A gain is an `i64` scaled by
//! `GAIN_ONE`, so a gain of `GAIN_ONE` leaves a sample unchanged (up to the
//! truncation of the final division).

use vstd::prelude::*;
use vstd::arithmetic::div_mod::lemma_div_by_multiple;
use vstd::arithmetic::div_mod::lemma_div_is_ordered;
use vstd::arithmetic::div_mod::lemma_div_nonincreasing;
use vstd::arithmetic::div_mod::lemma_div_pos_is_pos;
use vstd::arithmetic::mul::lemma_mul_inequality;
use vstd::arithmetic::mul::lemma_mul_nonnegative;

verus! {

/// Fixed sample rate of every stream, in Hz.
pub const SAMPLE_RATE: u32 = 44100;

/// Fixed-point scale of amplitudes: the value standing for 1.0.
pub const AMP_ONE: i64 = 65536;

/// Fixed-point scale of gains: the value standing for a gain of 1.0.
pub const GAIN_ONE: i64 = 65536;

/// An amplitude is valid when it lies in [-AMP_ONE, AMP_ONE], the image of
/// the real interval [-1.0, 1.0].
pub open spec fn amp_in_range(s: int) -> bool {
    -AMP_ONE <= s <= AMP_ONE
}

/// Division truncating toward zero, the meaning of `/` on Rust's signed
/// integers. (The ghost `/` is Euclidean; the two differ on negative
/// dividends.)
pub open spec fn div_trunc(n: int, d: int) -> int
    recommends
        d > 0,
{
    if n >= 0 {
        n / d
    } else {
        -((-n) / d)
    }
}

/// Truncating division of a (possibly negative) scaled value by a positive
/// divisor.
pub fn div_amp(n: i64, d: i64) -> (r: i64)
    requires
        0 < d,
        -0x4000_0000_0000_0000 <= n <= 0x4000_0000_0000_0000,
    ensures
        r == div_trunc(n as int, d as int),
{
    if n >= 0 {
        let q: u64 = (n as u64) / (d as u64);
        proof {
            lemma_div_nonincreasing(n as int, d as int);
            lemma_div_pos_is_pos(n as int, d as int);
        }
        q as i64
    } else {
        let m: u64 = (-n) as u64;
        let q: u64 = m / (d as u64);
        proof {
            lemma_div_nonincreasing(m as int, d as int);
            lemma_div_pos_is_pos(m as int, d as int);
        }
        -(q as i64)
    }
}

/// A quotient is no larger in magnitude than the bound of its dividend: if
/// |n| is at most d * b, then |n / d| (truncating) is at most b.
pub proof fn lemma_div_trunc_bound(n: int, d: int, b: int)
    requires
        0 < d,
        0 <= b,
        -(d * b) <= n <= d * b,
    ensures
        -b <= div_trunc(n, d) <= b,
{
    lemma_div_by_multiple(b, d);
    assert(b * d == d * b) by (nonlinear_arith);
    if n >= 0 {
        lemma_div_is_ordered(n, d * b, d);
        lemma_div_pos_is_pos(n, d);
    } else {
        lemma_div_is_ordered(-n, d * b, d);
        lemma_div_pos_is_pos(-n, d);
    }
}

/// Clamp an arbitrary value into the valid amplitude range.
pub open spec fn clamp_amp_spec(v: int) -> int {
    if v < -AMP_ONE {
        -AMP_ONE as int
    } else if v > AMP_ONE {
        AMP_ONE as int
    } else {
        v
    }
}

/// The exec counterpart of `clamp_amp_spec`.
pub fn clamp_amp(v: i64) -> (r: i64)
    ensures
        r == clamp_amp_spec(v as int),
        amp_in_range(r as int),
{
    if v < -AMP_ONE {
        -AMP_ONE
    } else if v > AMP_ONE {
        AMP_ONE
    } else {
        v
    }
}

/// A sample scaled by a fixed-point gain: multiply, then divide by
/// `GAIN_ONE`, truncating toward zero.
pub open spec fn scaled(s: int, g: int) -> int {
    div_trunc(s * g, GAIN_ONE as int)
}

/// A gain of at most `GAIN_ONE` never enlarges an amplitude: the scaled
/// value lies between 0 and the sample itself, so it stays in range.
pub proof fn lemma_scaled_bounds(s: int, g: int)
    requires
        amp_in_range(s),
        0 <= g <= GAIN_ONE,
    ensures
        s >= 0 ==> 0 <= scaled(s, g) <= s,
        s < 0 ==> s <= scaled(s, g) <= 0,
        amp_in_range(scaled(s, g)),
{
    let one = GAIN_ONE as int;
    if s >= 0 {
        lemma_mul_nonnegative(s, g);
        lemma_mul_inequality(g, one, s);
        assert(s * g <= s * one) by (nonlinear_arith)
            requires
                g * s <= one * s,
        ;
        lemma_div_is_ordered(s * g, s * one, one);
        lemma_div_by_multiple(s, one);
        lemma_div_pos_is_pos(s * g, one);
    } else {
        lemma_mul_nonnegative(-s, g);
        lemma_mul_inequality(g, one, -s);
        assert((-s) * g <= (-s) * one && -(s * g) == (-s) * g) by (nonlinear_arith)
            requires
                g * (-s) <= one * (-s),
        ;
        lemma_div_is_ordered(-(s * g), (-s) * one, one);
        lemma_div_by_multiple(-s, one);
        lemma_div_pos_is_pos(-(s * g), one);
        assert(s * g < 0 ==> scaled(s, g) == -((-(s * g)) / one));
        assert(s * g == 0 ==> scaled(s, g) == 0);
        assert(s * g <= 0) by (nonlinear_arith)
            requires
                s < 0,
                0 <= g,
        ;
    }
}

/// Scale a sample by a gain in [0, GAIN_ONE].
pub fn apply_gain(s: i64, g: i64) -> (r: i64)
    requires
        amp_in_range(s as int),
        0 <= g <= GAIN_ONE,
    ensures
        r == scaled(s as int, g as int),
        amp_in_range(r as int),
{
    proof {
        lemma_scaled_bounds(s as int, g as int);
        assert(-0x4000_0000_0000_0000 <= s * g <= 0x4000_0000_0000_0000) by (nonlinear_arith)
            requires
                -AMP_ONE <= s <= AMP_ONE,
                0 <= g <= GAIN_ONE,
        ;
    }
    let p: i64 = s * g;
    div_amp(p, GAIN_ONE)
}

} // verus!
