//! Fixed-point angles and circular functions.
//!
//! Angles are micro-radians.  The sine is the classical rational
//! approximation `16x(π−x) / (5π² − 4x(π−x))` on the half turn, extended by
//! sign to the full circle; it is exact as an integer function, so every
//! rotation a rig resolves is reproducible bit for bit.

use vstd::prelude::*;

verus! {

use crate::math::SCALE;
use vstd::arithmetic::div_mod::{
    lemma_div_is_ordered, lemma_div_multiples_vanish, lemma_fundamental_div_mod,
    lemma_fundamental_div_mod_converse_mod, lemma_mod_division_less_than_divisor,
};
use vstd::arithmetic::mul::lemma_mul_inequality;

/// Half a turn, micro-radians.
pub const PI_FX: i64 = 3_141_593;

/// A quarter turn, micro-radians.
pub const HALF_PI_FX: i64 = 1_570_796;

/// A full turn, micro-radians.
pub const TAU_FX: i64 = 6_283_186;

/// Largest angle magnitude the circular functions accept.
pub const ANGLE_LIMIT: i64 = 100_000_000;

/// The angle brought into `[0, TAU_FX)`.
pub open spec fn spec_norm_angle(a: int) -> int {
    a % (TAU_FX as int)
}

/// The sine approximation on `[0, PI_FX]`, scaled by [`SCALE`].
pub open spec fn spec_half_sine(x: int) -> int {
    let u = x * (PI_FX - x);
    let n = (16 * u) / 1000;
    let d = (5 * PI_FX * PI_FX - 4 * u) / 1000;
    (n * SCALE) / d
}

/// The sine of an angle, scaled by [`SCALE`].
pub open spec fn spec_sin_fx(a: int) -> int {
    let x = spec_norm_angle(a);
    if x <= PI_FX {
        spec_half_sine(x)
    } else {
        -spec_half_sine(x - PI_FX)
    }
}

/// The cosine of an angle, scaled by [`SCALE`]: the sine a quarter turn
/// ahead.
pub open spec fn spec_cos_fx(a: int) -> int {
    spec_sin_fx(a + HALF_PI_FX)
}

/// Brings an angle into `[0, TAU_FX)`.
pub fn norm_angle(a: i64) -> (r: i64)
    requires
        -ANGLE_LIMIT <= a <= ANGLE_LIMIT,
    ensures
        r == spec_norm_angle(a as int),
        0 <= r < TAU_FX,
{
    let t = TAU_FX;
    if a >= 0 {
        let r = ((a as u64) % (t as u64)) as i64;
        proof {
            lemma_mod_division_less_than_divisor(a as int, t as int);
            vstd::arithmetic::div_mod::lemma_mod_bound(a as int, t as int);
        }
        r
    } else {
        let m = (((-a) as u64) % (t as u64)) as i64;
        proof {
            vstd::arithmetic::div_mod::lemma_mod_bound((-a) as int, t as int);
        }
        if m == 0 {
            proof {
                lemma_neg_mod(a as int, t as int, 0);
            }
            0
        } else {
            proof {
                lemma_neg_mod(a as int, t as int, m as int);
            }
            t - m
        }
    }
}

/// The remainder of a negative number: a full divisor minus the remainder
/// of its magnitude, or zero when the magnitude divides evenly.
proof fn lemma_neg_mod(a: int, t: int, m: int)
    requires
        a < 0,
        0 < t,
        m == (-a) % t,
    ensures
        m == 0 ==> a % t == 0,
        m != 0 ==> a % t == t - m,
{
    lemma_fundamental_div_mod(-a, t);
    let q = (-a) / t;
    assert(-a == t * q + m);
    if m == 0 {
        assert(a == (-q) * t + 0) by (nonlinear_arith)
            requires -a == t * q + 0;
        lemma_fundamental_div_mod_converse_mod(a, t, -q, 0);
    } else {
        lemma_mod_division_less_than_divisor(-a, t);
        vstd::arithmetic::div_mod::lemma_mod_bound(-a, t);
        assert(a == (-q - 1) * t + (t - m)) by (nonlinear_arith)
            requires -a == t * q + m;
        lemma_fundamental_div_mod_converse_mod(a, t, -q - 1, t - m);
    }
}

/// The product `x(π−x)` never exceeds a quarter of `π²`.
proof fn lemma_quarter_bound(x: int)
    requires
        0 <= x <= PI_FX,
    ensures
        0 <= x * (PI_FX - x),
        4 * (x * (PI_FX - x)) <= PI_FX * PI_FX,
{
    let p = PI_FX as int;
    assert(0 <= x * (p - x) && 4 * (x * (p - x)) <= p * p) by (nonlinear_arith)
        requires 0 <= x <= p;
}

/// The sine approximation on the first half turn: non-negative, at most
/// one whole [`SCALE`].
pub fn half_sine(x: i64) -> (r: i64)
    requires
        0 <= x <= PI_FX,
    ensures
        r == spec_half_sine(x as int),
        0 <= r <= SCALE,
{
    proof {
        lemma_quarter_bound(x as int);
        assert(PI_FX as int * PI_FX <= 10_000_000_000_000) by (nonlinear_arith)
            requires PI_FX == 3_141_593;
        assert(4 * (PI_FX as int * PI_FX) >= 39_000_000_000_000) by (nonlinear_arith)
            requires PI_FX == 3_141_593;
    }
    let u: i64 = x * (PI_FX - x);
    let n_raw: i64 = 16 * u;
    let n: i64 = crate::math::div_pos(n_raw, 1000);
    proof {
        lemma_div_is_ordered(n_raw as int, 40_000_000_000_000, 1000);
    }
    let d_raw: i64 = 5 * PI_FX * PI_FX - 4 * u;
    let d: i64 = crate::math::div_pos(d_raw, 1000);
    proof {
        // The numerator never exceeds the denominator, so the quotient
        // stays within one whole unit; and the denominator stays positive.
        assert(16 * (u as int) <= 5 * (PI_FX as int * PI_FX) - 4 * u);
        lemma_div_is_ordered(n_raw as int, d_raw as int, 1000);
        lemma_div_is_ordered(1000, d_raw as int, 1000);
        assert(d >= 1);
        assert(0 <= n as int * SCALE <= 40_000_000_000_000_000) by (nonlinear_arith)
            requires 0 <= n <= 40_000_000_000 && SCALE == 1_000_000;
    }
    let ns: i64 = n * SCALE;
    let r: i64 = crate::math::div_pos(ns, d);
    proof {
        lemma_mul_inequality(n as int, d as int, SCALE as int);
        lemma_div_is_ordered(n as int * SCALE, d as int * SCALE, d as int);
        lemma_div_multiples_vanish(SCALE as int, d as int);
        assert((d as int * SCALE) / (d as int) == SCALE);
    }
    r
}

/// The sine of an angle, as a fixed-point value in `[-SCALE, SCALE]`.
pub fn sin_fx(a: i64) -> (r: i64)
    requires
        -ANGLE_LIMIT <= a <= ANGLE_LIMIT,
    ensures
        r == spec_sin_fx(a as int),
        -SCALE <= r <= SCALE,
{
    let x = norm_angle(a);
    if x <= PI_FX {
        half_sine(x)
    } else {
        -half_sine(x - PI_FX)
    }
}

/// The cosine of an angle, as a fixed-point value in `[-SCALE, SCALE]`.
pub fn cos_fx(a: i64) -> (r: i64)
    requires
        -ANGLE_LIMIT + TAU_FX <= a <= ANGLE_LIMIT - TAU_FX,
    ensures
        r == spec_cos_fx(a as int),
        -SCALE <= r <= SCALE,
{
    sin_fx(a + HALF_PI_FX)
}

} // verus!
