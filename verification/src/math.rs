//! Fixed-point arithmetic shared by the colour models.
//!
//! A real quantity `x` is held as the integer `x * UNIT`, so one step of the
//! representation is one ten-thousandth. Every division in the crate rounds
//! toward negative infinity, which is what `/` means on `int`.

use vstd::prelude::*;
use vstd::arithmetic::div_mod::lemma_fundamental_div_mod;
use vstd::arithmetic::div_mod::lemma_fundamental_div_mod_converse_div;
use vstd::arithmetic::div_mod::lemma_mod_bound;

verus! {

/// Number of fixed-point steps in one whole.
pub const UNIT: i64 = 10_000;

/// The largest value of a red, green or blue channel: 255.
pub const RGB_MAX: i64 = 2_550_000;

/// A full turn of hue: 360 degrees.
pub const HUE_TURN: i64 = 3_600_000;

/// The largest hue that an edit may set: 359 degrees.
pub const HUE_MAX: i64 = 3_590_000;

/// One hundred percent.
pub const PERCENT_MAX: i64 = 1_000_000;

/// `value` limited to the closed interval from `min` to `max`: `max` for a
/// larger value, `min` for a smaller one. Where `max` lies below `min`, the
/// result is `min`.
pub open spec fn clamp_spec(min: int, value: int, max: int) -> int {
    if value > max {
        if max > min {
            max
        } else {
            min
        }
    } else if value > min {
        value
    } else {
        min
    }
}

/// The smaller of two integers.
pub open spec fn min2(a: int, b: int) -> int {
    if a < b {
        a
    } else {
        b
    }
}

/// The larger of two integers.
pub open spec fn max2(a: int, b: int) -> int {
    if a > b {
        a
    } else {
        b
    }
}

/// The largest of three integers.
pub open spec fn max3(a: int, b: int, c: int) -> int {
    max2(max2(a, b), c)
}

/// The smallest of three integers.
pub open spec fn min3(a: int, b: int, c: int) -> int {
    min2(min2(a, b), c)
}

/// Limits `value` to the interval from `min` to `max`.
pub fn clamp(min: i64, value: i64, max: i64) -> (r: i64)
    ensures
        r == clamp_spec(min as int, value as int, max as int),
        min <= max ==> min <= r <= max,
        min <= value <= max ==> r == value,
{
    let capped: i64 = if max < value {
        max
    } else {
        value
    };
    if capped > min {
        capped
    } else {
        min
    }
}

/// Limits `value` to the interval from `min` to `max` and reports whether the
/// value had to be moved; a moved value is what the audible bell announces.
pub fn clamp_with_bel(min: i64, value: i64, max: i64) -> (r: (i64, bool))
    ensures
        r.0 == clamp_spec(min as int, value as int, max as int),
        r.1 == (r.0 != value),
        min <= value <= max ==> r.0 == value && !r.1,
{
    let new_value: i64 = clamp(min, value, max);
    (new_value, new_value != value)
}

/// A value that already lies in the interval is its own clamp, and clamping
/// twice gives what clamping once gives.
pub proof fn lemma_clamp_idempotent(min: int, value: int, max: int)
    requires
        min <= max,
    ensures
        min <= clamp_spec(min, value, max) <= max,
        min <= value <= max ==> clamp_spec(min, value, max) == value,
        clamp_spec(min, clamp_spec(min, value, max), max) == clamp_spec(min, value, max),
{
}

/// The quotient `a / d` of a positive divisor is the one integer `q` with
/// `q * d <= a < q * d + d`.
pub proof fn lemma_floor_div_bounds(a: int, d: int)
    requires
        d > 0,
    ensures
        (a / d) * d <= a < (a / d) * d + d,
{
    lemma_fundamental_div_mod(a, d);
    lemma_mod_bound(a, d);
    assert(d * (a / d) == (a / d) * d) by (nonlinear_arith);
}

/// Whatever integer lies within one divisor below `a` in multiples of `d` is
/// the quotient.
pub proof fn lemma_floor_div_unique(a: int, d: int, q: int)
    requires
        d > 0,
        q * d <= a < q * d + d,
    ensures
        q == a / d,
{
    let r = a - q * d;
    lemma_fundamental_div_mod_converse_div(a, d, q, r);
}

/// Division that rounds toward negative infinity, also for a negative `a`.
pub fn floor_div(a: i128, d: i128) -> (q: i128)
    requires
        d > 0,
        -0x4000_0000_0000_0000_0000_0000_0000_0000 <= a < 0x4000_0000_0000_0000_0000_0000_0000_0000,
        d < 0x4000_0000_0000_0000_0000_0000_0000_0000,
    ensures
        q == a as int / d as int,
{
    if a >= 0 {
        a / d
    } else {
        let n: i128 = -a;
        let up: i128 = (n + (d - 1)) / d;
        proof {
            let u = up as int;
            lemma_floor_div_bounds(n + (d - 1), d as int);
            assert(u * d <= n + d - 1 < u * d + d);
            assert((-u) * d == -(u * d)) by (nonlinear_arith);
            lemma_floor_div_unique(a as int, d as int, -u);
        }
        -up
    }
}

} // verus!
