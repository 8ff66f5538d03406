//! How much of a colour survives the way through another colour model and
//! back.
//!
//! Every conversion rounds down to a fixed-point step, so a colour does not
//! come back exactly. The theorems here bound what is lost: a few steps, far
//! less than one whole of a channel.

use vstd::prelude::*;
use crate::color_conversions::{
    cymk2rgb_spec, hsl2rgb_spec, hsl_floor, hsl_peak, hsl_ramp, ink_channel, is_channel,
    lemma_hsl_parts_range, lemma_rgb2hsl_range, lightness_margin, rgb2cymk_spec, rgb2hsl_spec,
};
use crate::math::{lemma_floor_div_bounds, max3, min2, min3, PERCENT_MAX, RGB_MAX, UNIT};

verus! {

/// The most steps by which a channel grows on the way through the inks and
/// back. It never shrinks.
pub const CYMK_ROUND_TRIP_GAIN: i64 = 5;

/// The most steps that a channel loses on the way through hue, saturation
/// and lightness and back.
pub const HSL_ROUND_TRIP_LOSS: i64 = 17;

/// The most steps that a channel gains on the way through hue, saturation
/// and lightness and back.
pub const HSL_ROUND_TRIP_GAIN: i64 = 13;

/// Whether `back` is what the channel `v` may be after the way through the
/// inks and back.
pub open spec fn cymk_close(v: int, back: int) -> bool {
    v <= back <= v + CYMK_ROUND_TRIP_GAIN
}

/// Whether `back` is what the channel `v` may be after the way through hue,
/// saturation and lightness and back.
pub open spec fn hsl_close(v: int, back: int) -> bool {
    v - HSL_ROUND_TRIP_LOSS <= back <= v + HSL_ROUND_TRIP_GAIN
}

/// One channel on the way through the inks and back: the ink of a channel
/// `v` under the largest channel `max`, and the black ink of `max`, leave a
/// channel that is `v` or a few steps more.
proof fn lemma_ink_round_trip(v: int, max: int)
    requires
        0 <= v <= max <= RGB_MAX,
        0 < max,
    ensures
        cymk_close(
            v,
            ink_channel(
                PERCENT_MAX * (max - v) / max,
                PERCENT_MAX * (RGB_MAX - max) / (RGB_MAX as int),
            ),
        ),
{
    let pct = PERCENT_MAX as int;
    let rgb = RGB_MAX as int;
    let ink = pct * (max - v) / max;
    let k = pct * (rgb - max) / rgb;
    let a = pct - ink;
    let b = pct - k;
    lemma_floor_div_bounds(pct * (max - v), max);
    lemma_floor_div_bounds(pct * (rgb - max), rgb);
    // what the two divisions say of the parts that are left
    assert(pct * v <= a * max < pct * v + max) by (nonlinear_arith)
        requires
            ink * max <= pct * (max - v) < ink * max + max,
            a == pct - ink,
    ;
    assert(pct * max <= b * rgb < pct * max + rgb);
    assert(0 <= a <= pct && 0 <= b <= pct) by (nonlinear_arith)
        requires
            pct * v <= a * max < pct * v + max,
            pct * max <= b * rgb < pct * max + rgb,
            0 <= v <= max,
            0 < max <= rgb,
            rgb == 2_550_000,
            pct == 1_000_000,
    ;
    let ab = a * b;
    // from below: the product loses nothing
    assert(ab * rgb >= pct * pct * v) by (nonlinear_arith)
        requires
            ab == a * b,
            pct * v <= a * max,
            pct * max <= b * rgb,
            0 <= a,
            0 <= b,
            0 <= v,
            0 < max,
            0 < pct,
            0 < rgb,
    {
        assert((a * max) * (b * rgb) >= (pct * v) * (pct * max));
        assert((a * max) * (b * rgb) == (a * b * rgb) * max);
        assert((pct * v) * (pct * max) == (pct * pct * v) * max);
    }
    // from above: each division adds less than one step of its own
    assert(ab * rgb <= pct * pct * v + rgb * (2 * pct + 1)) by (nonlinear_arith)
        requires
            ab == a * b,
            0 <= a * max < pct * v + max,
            0 <= b * rgb < pct * max + rgb,
            0 <= a,
            0 <= b,
            0 <= v <= max,
            0 < max <= rgb,
            0 < pct,
    {
        assert((a * max) * (b * rgb) <= (pct * v + max) * (pct * max + rgb));
        assert((a * max) * (b * rgb) == (a * b * rgb) * max);
        assert((pct * v + max) * (pct * max + rgb) == (pct * pct * v) * max + (pct * v) * rgb
            + pct * max * max + max * rgb);
        assert((pct * v) * rgb <= (pct * rgb) * max);
        assert(pct * max * max <= (pct * rgb) * max);
        assert((a * b * rgb) * max <= (pct * pct * v + pct * rgb + pct * rgb + rgb) * max);
    }
    assert(rgb * ab == ab * rgb) by (nonlinear_arith);
    assert(pct * pct == 1_000_000_000_000);
    assert(pct * pct * v == 1_000_000_000_000 * v) by (nonlinear_arith)
        requires
            pct == 1_000_000,
    ;
    assert(rgb * (2 * pct + 1) == 5_100_002_550_000);
}

/// A colour that goes through the inks and back comes back with every
/// channel as it was or at most `CYMK_ROUND_TRIP_GAIN` steps more; that is
/// less than a thousandth of one whole. Black, which has black ink alone,
/// comes back exactly.
pub proof fn lemma_cymk_round_trip(r: int, g: int, b: int)
    requires
        is_channel(r),
        is_channel(g),
        is_channel(b),
    ensures
        ({
            let (c, y, m, k) = rgb2cymk_spec(r, g, b);
            let (r2, g2, b2) = cymk2rgb_spec(c, y, m, k);
            &&& cymk_close(r, r2)
            &&& cymk_close(g, g2)
            &&& cymk_close(b, b2)
            &&& max3(r, g, b) == 0 ==> (c, y, m, k) == (0int, 0int, 0int, PERCENT_MAX as int) && (
            r2,
            g2,
            b2,
        ) == (0int, 0int, 0int)
            &&& r2 - r <= UNIT && g2 - g <= UNIT && b2 - b <= UNIT
        }),
{
    let max = max3(r, g, b);
    if max == 0 {
        assert(ink_channel(0, PERCENT_MAX as int) == 0);
    } else {
        lemma_ink_round_trip(r, max);
        lemma_ink_round_trip(g, max);
        lemma_ink_round_trip(b, max);
    }
}

/// The lightness of a colour with the largest channel `max` and the
/// smallest channel `min`.
pub open spec fn lightness_of(max: int, min: int) -> int {
    (max + min) * 100 / 510
}

/// The saturation of a colour with the largest channel `max` and the
/// smallest channel `min`, which is less than `max`.
pub open spec fn saturation_of(max: int, min: int) -> int {
    PERCENT_MAX * (max - min) / min2(max + min, 2 * RGB_MAX - (max + min))
}

/// How far the parts from which a colour is made anew lie from what they
/// would be without rounding: the lightness, and the product of the margin
/// of the lightness and the saturation.
proof fn lemma_light_parts(max: int, min: int)
    requires
        0 <= min < max <= RGB_MAX,
    ensures
        ({
            let l = lightness_of(max, min);
            let s = saturation_of(max, min);
            let t = lightness_margin(l) * s;
            let d = max - min;
            let sum = max + min;
            &&& 0 <= s <= PERCENT_MAX
            &&& 0 <= l <= PERCENT_MAX
            &&& 0 <= t
            &&& 10_000_000 * sum - 51_000_000 < 51 * (l * PERCENT_MAX) <= 10_000_000 * sum
            &&& 10_000_000 * d - 75_500_000 < 51 * t <= 10_000_000 * d + 50_000_000
        }),
{
    let pct = PERCENT_MAX as int;
    let d = max - min;
    let sum = max + min;
    let room = min2(sum, 2 * RGB_MAX - sum);
    let l = lightness_of(max, min);
    let s = saturation_of(max, min);
    let m = lightness_margin(l);
    let t = m * s;
    assert(0 < d <= room <= RGB_MAX);
    lemma_floor_div_bounds(pct * d, room);
    assert(0 <= s <= pct) by (nonlinear_arith)
        requires
            s * room <= pct * d < s * room + room,
            0 < d <= room,
            pct == 1_000_000,
    ;
    // the lightness and its margin, each less than a step off
    assert(51 * l <= 10 * sum < 51 * l + 51);
    assert(10 * room - 51 < 51 * m <= 10 * room + 50);
    assert(0 <= m);
    // the product of the margin and the saturation
    let ms = (51 * m) * s;
    let rs = room * s;
    assert(rs == s * room) by (nonlinear_arith)
        requires
            rs == room * s,
    ;
    assert(ms <= (10 * room + 50) * s && ms >= (10 * room - 50) * s && 0 <= t) by (nonlinear_arith)
        requires
            ms == (51 * m) * s,
            t == m * s,
            10 * room - 50 <= 51 * m <= 10 * room + 50,
            0 <= m,
            0 <= s,
    ;
    assert((10 * room + 50) * s == 10 * rs + 50 * s && (10 * room - 50) * s == 10 * rs - 50 * s)
        by (nonlinear_arith)
        requires
            rs == room * s,
    ;
    assert(ms == 51 * t) by (nonlinear_arith)
        requires
            ms == (51 * m) * s,
            t == m * s,
    ;
}

/// The largest and the smallest channel of a colour that is made anew lie
/// close to the largest and the smallest channel that it had.
proof fn lemma_ends_close(max: int, min: int)
    requires
        0 <= min < max <= RGB_MAX,
    ensures
        max - 7 <= hsl_peak(saturation_of(max, min), lightness_of(max, min)) <= max + 2,
        min - 6 <= hsl_floor(saturation_of(max, min), lightness_of(max, min)) <= min + 3,
{
    lemma_light_parts(max, min);
    let l = lightness_of(max, min);
    let s = saturation_of(max, min);
    let t = lightness_margin(l) * s;
    let base = l * PERCENT_MAX;
    let hi = base + t;
    let lo = base - t;
    assert(20_000_000 * max - 126_500_000 < 51 * hi <= 20_000_000 * max + 50_000_000);
    assert(20_000_000 * min - 101_000_000 < 51 * lo < 20_000_000 * min + 75_500_000);
    assert(100 * PERCENT_MAX == 100_000_000);
    lemma_floor_div_bounds(255 * hi, 100 * PERCENT_MAX);
    lemma_floor_div_bounds(255 * lo, 100 * PERCENT_MAX);
}

/// A channel between the smallest and the largest, `e` above the smallest,
/// comes back close to itself from the ramp, if the place `x` on the ramp
/// is less than a step away from its share `e` of the spread.
proof fn lemma_ramp_close(x: int, e: int, max: int, min: int)
    requires
        0 <= min < max <= RGB_MAX,
        0 <= e <= max - min,
        0 <= x <= 60 * UNIT,
        60 * UNIT * e - (max - min) < x * (max - min) < 60 * UNIT * e + (max - min),
    ensures
        hsl_close(min + e, hsl_ramp(x, saturation_of(max, min), lightness_of(max, min))),
{
    lemma_light_parts(max, min);
    let d = max - min;
    let l = lightness_of(max, min);
    let s = saturation_of(max, min);
    let t = lightness_margin(l) * s;
    let base = l * PERCENT_MAX;
    let lo = base - t;
    let xd = x * d;
    let xt = x * t;
    let t51 = 51 * t;
    // the place on the ramp times the product, from the bounds of each
    assert(x * t51 >= x * (10_000_000 * d - 75_500_000) && x * t51 <= x * (10_000_000 * d
        + 50_000_000)) by (nonlinear_arith)
        requires
            0 <= x,
            10_000_000 * d - 75_500_000 <= t51 <= 10_000_000 * d + 50_000_000,
    ;
    assert(x * (10_000_000 * d - 75_500_000) == 10_000_000 * xd - 75_500_000 * x && x * (10_000_000
        * d + 50_000_000) == 10_000_000 * xd + 50_000_000 * x && x * t51 == 51 * xt)
        by (nonlinear_arith)
        requires
            xd == x * d,
            xt == x * t,
            t51 == 51 * t,
    ;
    assert(60 * UNIT * e == 600_000 * e);
    assert(600_000 * e - d < xd < 600_000 * e + d);
    assert(6_000_000_000_000 * e - 70_800_000_000_000 < 51 * xt < 6_000_000_000_000 * e
        + 55_500_000_000_000);
    assert(20_000_000 * min - 101_000_000 < 51 * lo < 20_000_000 * min + 75_500_000);
    let whole = 2 * x * t + 60 * UNIT * lo;
    assert(2 * x * t == 2 * xt) by (nonlinear_arith)
        requires
            xt == x * t,
    ;
    assert(60 * UNIT * lo == 600_000 * lo);
    assert(51 * whole == 2 * (51 * xt) + 600_000 * (51 * lo));
    assert(12_000_000_000_000 * (min + e) - 202_200_000_000_000 < 51 * whole
        < 12_000_000_000_000 * (min + e) + 156_300_000_000_000);
    assert(60 * PERCENT_MAX * PERCENT_MAX == 60_000_000_000_000);
    lemma_floor_div_bounds(255 * whole, 60 * PERCENT_MAX * PERCENT_MAX);
}

/// A colour that goes through hue, saturation and lightness and back comes
/// back with every channel at most `HSL_ROUND_TRIP_LOSS` steps less or
/// `HSL_ROUND_TRIP_GAIN` steps more; that is less than two thousandths of
/// one whole.
pub proof fn lemma_hsl_round_trip(r: int, g: int, b: int)
    requires
        is_channel(r),
        is_channel(g),
        is_channel(b),
    ensures
        ({
            let (h, s, l) = rgb2hsl_spec(r, g, b);
            let (r2, g2, b2) = hsl2rgb_spec(h, s, l);
            &&& hsl_close(r, r2)
            &&& hsl_close(g, g2)
            &&& hsl_close(b, b2)
            &&& -UNIT <= r2 - r <= UNIT
            &&& -UNIT <= g2 - g <= UNIT
            &&& -UNIT <= b2 - b <= UNIT
        }),
{
    let max = max3(r, g, b);
    let min = min3(r, g, b);
    let d = max - min;
    let (h, s, l) = rgb2hsl_spec(r, g, b);
    lemma_rgb2hsl_range(r, g, b);
    assert(h % (crate::math::HUE_TURN as int) == h);
    if d == 0 {
        lemma_grey_round_trip(max);
    } else {
        assert(l == lightness_of(max, min));
        assert(s == saturation_of(max, min));
        lemma_ends_close(max, min);
        let sector = 60 * UNIT;
        lemma_hsl_parts_range(sector, s, l);
        if max == r {
            let q = sector * (g - b) / d;
            lemma_floor_div_bounds(sector * (g - b), d);
            lemma_turn(q, g - b, d);
            if q >= 0 {
                lemma_ramp_close(q, g - b, max, min);
            } else {
                lemma_ramp_close(-q, b - g, max, min);
            }
        } else if max == g {
            let q = sector * (b - r) / d;
            lemma_floor_div_bounds(sector * (b - r), d);
            lemma_turn(q, b - r, d);
            if q >= 0 {
                lemma_ramp_close(q, b - r, max, min);
            } else {
                lemma_ramp_close(-q, r - b, max, min);
            }
        } else {
            let q = sector * (r - g) / d;
            lemma_floor_div_bounds(sector * (r - g), d);
            lemma_turn(q, r - g, d);
            if q >= 0 {
                lemma_ramp_close(q, r - g, max, min);
            } else {
                lemma_ramp_close(-q, g - r, max, min);
            }
        }
    }
}

/// What the place `q` of a hue within its sector says of the difference
/// `n` of two channels, of which it is the share in the spread `d`: the
/// place has the sign of the difference, lies within the sector, is less
/// than a step away from the share, and reaches the end of the sector only
/// where the difference is the whole spread.
proof fn lemma_turn(q: int, n: int, d: int)
    requires
        0 < d,
        -d <= n <= d,
        q * d <= 60 * UNIT * n < q * d + d,
    ensures
        -60 * UNIT <= q <= 60 * UNIT,
        n >= 0 ==> q >= 0,
        n < 0 ==> q < 0,
        q == 60 * UNIT ==> n == d,
        q >= 0 ==> 60 * UNIT * n - d < q * d <= 60 * UNIT * n,
        q < 0 ==> 60 * UNIT * (-n) <= (-q) * d < 60 * UNIT * (-n) + d,
{
    assert(-600_000 <= q <= 600_000 && (n >= 0 ==> q >= 0) && (n < 0 ==> q < 0) && (q == 600_000
        ==> n == d)) by (nonlinear_arith)
        requires
            0 < d,
            -d <= n <= d,
            q * d <= 600_000 * n < q * d + d,
    ;
    assert((-q) * d == -(q * d)) by (nonlinear_arith);
}

/// A grey comes back as a grey at most three steps darker.
proof fn lemma_grey_round_trip(v: int)
    requires
        is_channel(v),
    ensures
        ({
            let (r2, g2, b2) = hsl2rgb_spec(0, 0, (v + v) * 100 / 510);
            &&& r2 == g2 == b2
            &&& v - 3 <= r2 <= v
        }),
{
    let l = (v + v) * 100 / 510;
    let m = lightness_margin(l);
    assert(m * 0 == 0) by (nonlinear_arith);
    assert(l * PERCENT_MAX == 1_000_000 * l);
    assert(100 * PERCENT_MAX == 100_000_000);
    assert(60 * PERCENT_MAX * PERCENT_MAX == 60_000_000_000_000);
    assert(2 * 0 * (m * 0) == 0) by (nonlinear_arith);
    assert(hsl_peak(0, l) == 255 * (1_000_000 * l) / 100_000_000);
    assert(hsl_floor(0, l) == hsl_peak(0, l));
    assert(hsl_ramp(0, 0, l) == 255 * (600_000 * (1_000_000 * l)) / 60_000_000_000_000);
}

} // verus!
