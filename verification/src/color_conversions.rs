//! Conversions between the colour models: RGB, HSL, CMYK, the 256-colour
//! palette and packed colour numbers.
//!
//! Channels are fixed-point numbers (see `math`): red, green and blue run from
//! 0 to `RGB_MAX`, hue from 0 up to but not reaching `HUE_TURN`, and
//! saturation, lightness and the four ink channels from 0 to `PERCENT_MAX`.

use vstd::prelude::*;
use vstd::arithmetic::div_mod::{lemma_div_is_ordered, lemma_div_multiples_vanish_quotient};
use crate::color_names::{color_entry, color_entry_spec, COLOR_COUNT};
use crate::error::ParseError;
use crate::text::{chars_eq, hex_padded, push_hex_padded, to_chars};
use crate::math::{
    floor_div, lemma_floor_div_bounds, max3, min2, min3, HUE_TURN, PERCENT_MAX, RGB_MAX, UNIT,
};

verus! {

/// A colour packed as `red * 65536 + green * 256 + blue`.
pub type ColorInt = u32;

/// Whether `v` is a legal red, green or blue channel.
pub open spec fn is_channel(v: int) -> bool {
    0 <= v <= RGB_MAX
}

/// Whether `v` is a legal percentage.
pub open spec fn is_percent(v: int) -> bool {
    0 <= v <= PERCENT_MAX
}

/// Hue, saturation and lightness of a colour.
///
/// Lightness is the mean of the largest and the smallest channel. A grey has
/// hue 0 and saturation 0. Otherwise saturation is the spread of the channels
/// over the widest spread that the lightness allows, and hue is 60 degrees
/// times the position of the colour in the sector of its largest channel.
pub open spec fn rgb2hsl_spec(r: int, g: int, b: int) -> (int, int, int) {
    let max = max3(r, g, b);
    let min = min3(r, g, b);
    let delta = max - min;
    let sum = max + min;
    let l = sum * 100 / 510;
    if delta == 0 {
        (0, 0, l)
    } else {
        let s = PERCENT_MAX * delta / min2(sum, 2 * RGB_MAX - sum);
        let h = if max == r {
            let q = 60 * UNIT * (g - b) / delta;
            if q < 0 {
                q + HUE_TURN
            } else {
                q
            }
        } else if max == g {
            60 * UNIT * (b - r) / delta + 120 * UNIT
        } else {
            60 * UNIT * (r - g) / delta + 240 * UNIT
        };
        (h, s, l)
    }
}

/// The distance of a lightness from the nearer end of its range.
pub open spec fn lightness_margin(l: int) -> int {
    min2(l, PERCENT_MAX - l)
}

/// The largest channel of the colour with saturation `s` and lightness `l`.
pub open spec fn hsl_peak(s: int, l: int) -> int {
    255 * (l * PERCENT_MAX + lightness_margin(l) * s) / (100 * PERCENT_MAX)
}

/// The smallest channel of the colour with saturation `s` and lightness `l`.
pub open spec fn hsl_floor(s: int, l: int) -> int {
    255 * (l * PERCENT_MAX - lightness_margin(l) * s) / (100 * PERCENT_MAX)
}

/// The channel that lies `x` of the way (in sixtieths of a sector) from the
/// smallest channel to the largest.
pub open spec fn hsl_ramp(x: int, s: int, l: int) -> int {
    255 * (2 * x * (lightness_margin(l) * s) + 60 * UNIT * (l * PERCENT_MAX - lightness_margin(l)
        * s)) / (60 * PERCENT_MAX * PERCENT_MAX)
}

/// Red, green and blue of a colour given by hue, saturation and lightness.
///
/// The hue is reduced to one turn first. Each sector of 60 degrees holds one
/// channel at the peak, one at the floor and one on the ramp between them.
pub open spec fn hsl2rgb_spec(h: int, s: int, l: int) -> (int, int, int) {
    let hue = h % (HUE_TURN as int);
    let max = hsl_peak(s, l);
    let min = hsl_floor(s, l);
    if hue < 60 * UNIT {
        (max, hsl_ramp(hue, s, l), min)
    } else if hue < 120 * UNIT {
        (hsl_ramp(120 * UNIT - hue, s, l), max, min)
    } else if hue < 180 * UNIT {
        (min, max, hsl_ramp(hue - 120 * UNIT, s, l))
    } else if hue < 240 * UNIT {
        (min, hsl_ramp(240 * UNIT - hue, s, l), max)
    } else if hue < 300 * UNIT {
        (hsl_ramp(hue - 240 * UNIT, s, l), min, max)
    } else {
        (max, min, hsl_ramp(360 * UNIT - hue, s, l))
    }
}

proof fn lemma_scaled_quotient_bounds(k: int, n: int, d: int)
    requires
        d > 0,
        k >= 0,
        -d <= n <= d,
    ensures
        -k <= k * n / d <= k,
        n >= 0 ==> k * n / d >= 0,
        n < 0 && k > 0 ==> k * n / d < 0,
{
    let q = k * n / d;
    lemma_floor_div_bounds(k * n, d);
    assert(q <= k && q >= -k && (n >= 0 ==> q >= 0) && (n < 0 && k > 0 ==> q < 0))
        by (nonlinear_arith)
        requires
            d > 0,
            k >= 0,
            -d <= n <= d,
            q * d <= k * n < q * d + d,
    ;
}

/// The three outputs of `rgb2hsl_spec` lie in their ranges.
pub proof fn lemma_rgb2hsl_range(r: int, g: int, b: int)
    requires
        is_channel(r),
        is_channel(g),
        is_channel(b),
    ensures
        0 <= rgb2hsl_spec(r, g, b).0 < HUE_TURN,
        is_percent(rgb2hsl_spec(r, g, b).1),
        is_percent(rgb2hsl_spec(r, g, b).2),
{
    let max = max3(r, g, b);
    let min = min3(r, g, b);
    let delta = max - min;
    let sum = max + min;
    if delta != 0 {
        let room = min2(sum, 2 * RGB_MAX - sum);
        lemma_scaled_quotient_bounds(PERCENT_MAX as int, delta, room);
        lemma_scaled_quotient_bounds(60 * UNIT, g - b, delta);
        lemma_scaled_quotient_bounds(60 * UNIT, b - r, delta);
        lemma_scaled_quotient_bounds(60 * UNIT, r - g, delta);
    }
}

/// Converts red, green and blue to hue, saturation and lightness.
pub fn rgb2hsl(r: i64, g: i64, b: i64) -> (hsl: (i64, i64, i64))
    requires
        is_channel(r as int),
        is_channel(g as int),
        is_channel(b as int),
    ensures
        (hsl.0 as int, hsl.1 as int, hsl.2 as int) == rgb2hsl_spec(r as int, g as int, b as int),
        0 <= hsl.0 < HUE_TURN,
        is_percent(hsl.1 as int),
        is_percent(hsl.2 as int),
{
    proof {
        lemma_rgb2hsl_range(r as int, g as int, b as int);
    }
    let rg: i64 = if r > g {
        r
    } else {
        g
    };
    let max: i64 = if rg > b {
        rg
    } else {
        b
    };
    let rg_min: i64 = if r < g {
        r
    } else {
        g
    };
    let min: i64 = if rg_min < b {
        rg_min
    } else {
        b
    };
    let delta: i64 = max - min;
    let sum: i64 = max + min;
    let l: i64 = sum * 100 / 510;
    if delta == 0 {
        return (0, 0, l);
    }
    let room: i64 = if sum < 2 * RGB_MAX - sum {
        sum
    } else {
        2 * RGB_MAX - sum
    };
    let s: i64 = PERCENT_MAX * delta / room;
    let h: i64 = if max == r {
        let q: i128 = floor_div(60 * (UNIT as i128) * ((g - b) as i128), delta as i128);
        if q < 0 {
            (q + HUE_TURN as i128) as i64
        } else {
            q as i64
        }
    } else if max == g {
        (floor_div(60 * (UNIT as i128) * ((b - r) as i128), delta as i128) + 120 * (UNIT as i128))
            as i64
    } else {
        (floor_div(60 * (UNIT as i128) * ((r - g) as i128), delta as i128) + 240 * (UNIT as i128))
            as i64
    };
    (h, s, l)
}

/// The remainder of `a` by a positive `d`, never negative.
fn floor_rem(a: i64, d: i64) -> (m: i64)
    requires
        d > 0,
    ensures
        m == a as int % d as int,
        0 <= m < d,
{
    if a >= 0 {
        a % d
    } else {
        let n: i64 = -(a + 1);
        let back: i64 = n % d;
        proof {
            let q = n as int / d as int;
            lemma_floor_div_bounds(n as int, d as int);
            vstd::arithmetic::div_mod::lemma_fundamental_div_mod(n as int, d as int);
            assert(d * q == q * d) by (nonlinear_arith);
            assert((-q - 1) * d == -(q * d) - d) by (nonlinear_arith);
            vstd::arithmetic::div_mod::lemma_fundamental_div_mod_converse_mod(
                a as int,
                d as int,
                -q - 1,
                d - 1 - back,
            );
        }
        d - 1 - back
    }
}

/// The peak, the floor and every ramp value between them are channels, and
/// the ramp meets the floor at 0 and the peak at a full sector.
pub proof fn lemma_hsl_parts_range(x: int, s: int, l: int)
    requires
        is_percent(s),
        is_percent(l),
        0 <= x <= 60 * UNIT,
    ensures
        0 <= hsl_floor(s, l) <= hsl_ramp(x, s, l) <= hsl_peak(s, l) <= RGB_MAX,
        hsl_ramp(0, s, l) == hsl_floor(s, l),
        hsl_ramp(60 * UNIT, s, l) == hsl_peak(s, l),
{
    let m = lightness_margin(l);
    let t = m * s;
    let lo = l * PERCENT_MAX - t;
    let hi = l * PERCENT_MAX + t;
    assert(0 <= t <= m * PERCENT_MAX) by (nonlinear_arith)
        requires
            0 <= m,
            0 <= s <= PERCENT_MAX,
            t == m * s,
    ;
    let sector = 60 * UNIT;
    let whole = 100 * PERCENT_MAX;
    let ramp_at = |y: int| 255 * (2 * y * t + sector * lo);
    assert(60 * PERCENT_MAX * PERCENT_MAX == sector * whole);
    assert(0 <= ramp_at(0) == sector * (255 * lo) <= ramp_at(x) <= ramp_at(sector) == sector * (255
        * hi)) by (nonlinear_arith)
        requires
            0 <= x <= sector,
            0 <= t,
            0 <= lo,
            hi == lo + 2 * t,
            sector == 600_000,
            ramp_at(0) == 255 * (2 * 0 * t + sector * lo),
            ramp_at(x) == 255 * (2 * x * t + sector * lo),
            ramp_at(sector) == 255 * (2 * sector * t + sector * lo),
    ;
    lemma_div_multiples_vanish_quotient(sector, 255 * lo, whole);
    lemma_div_multiples_vanish_quotient(sector, 255 * hi, whole);
    lemma_div_is_ordered(ramp_at(0), ramp_at(x), sector * whole);
    lemma_div_is_ordered(ramp_at(x), ramp_at(sector), sector * whole);
}

/// Converts hue, saturation and lightness to red, green and blue.
pub fn hsl2rgb(h: i64, s: i64, l: i64) -> (rgb: (i64, i64, i64))
    requires
        is_percent(s as int),
        is_percent(l as int),
    ensures
        (rgb.0 as int, rgb.1 as int, rgb.2 as int) == hsl2rgb_spec(h as int, s as int, l as int),
        is_channel(rgb.0 as int),
        is_channel(rgb.1 as int),
        is_channel(rgb.2 as int),
{
    let hue: i64 = floor_rem(h, HUE_TURN);
    let margin: i64 = if l < PERCENT_MAX - l {
        l
    } else {
        PERCENT_MAX - l
    };
    assert(0 <= margin * s <= margin * PERCENT_MAX) by (nonlinear_arith)
        requires
            0 <= margin,
            0 <= s <= PERCENT_MAX,
    ;
    let t: i64 = margin * s;
    let hi: i64 = l * PERCENT_MAX + t;
    let lo: i64 = l * PERCENT_MAX - t;
    let max: i64 = 255 * hi / (100 * PERCENT_MAX);
    let min: i64 = 255 * lo / (100 * PERCENT_MAX);
    let x: i64 = if hue < 60 * UNIT {
        hue
    } else if hue < 120 * UNIT {
        120 * UNIT - hue
    } else if hue < 180 * UNIT {
        hue - 120 * UNIT
    } else if hue < 240 * UNIT {
        240 * UNIT - hue
    } else if hue < 300 * UNIT {
        hue - 240 * UNIT
    } else {
        360 * UNIT - hue
    };
    proof {
        lemma_hsl_parts_range(x as int, s as int, l as int);
        assert(0 <= x * t <= 60 * UNIT * t) by (nonlinear_arith)
            requires
                0 <= x <= 60 * UNIT,
                0 <= t,
        ;
        assert(2 * x * t == 2 * (x * t)) by (nonlinear_arith);
    }
    let xt: i128 = (x as i128) * (t as i128);
    let ramp: i64 = (255 * (2 * xt + 60 * (UNIT as i128) * (lo as i128)) / (60 * (
    PERCENT_MAX as i128) * (PERCENT_MAX as i128))) as i64;
    if hue < 60 * UNIT {
        (max, ramp, min)
    } else if hue < 120 * UNIT {
        (ramp, max, min)
    } else if hue < 180 * UNIT {
        (min, max, ramp)
    } else if hue < 240 * UNIT {
        (min, ramp, max)
    } else if hue < 300 * UNIT {
        (ramp, min, max)
    } else {
        (max, min, ramp)
    }
}

/// Cyan, yellow, magenta and black ink of a colour, in this order.
///
/// Black ink is what the largest channel leaves of full brightness. Each of
/// the other inks is the share by which its channel (red for cyan, blue for
/// yellow, green for magenta) falls short of the largest channel. Pure black
/// has none of the three.
pub open spec fn rgb2cymk_spec(r: int, g: int, b: int) -> (int, int, int, int) {
    let max = max3(r, g, b);
    let k = PERCENT_MAX * (RGB_MAX - max) / (RGB_MAX as int);
    if max == 0 {
        (0, 0, 0, k)
    } else {
        (
            PERCENT_MAX * (max - r) / max,
            PERCENT_MAX * (max - b) / max,
            PERCENT_MAX * (max - g) / max,
            k,
        )
    }
}

/// The channel that the ink `ink` leaves under black ink `k`.
pub open spec fn ink_channel(ink: int, k: int) -> int {
    RGB_MAX * ((PERCENT_MAX - ink) * (PERCENT_MAX - k)) / (PERCENT_MAX * PERCENT_MAX)
}

/// Red, green and blue of a colour given by cyan, yellow, magenta and black
/// ink.
pub open spec fn cymk2rgb_spec(c: int, y: int, m: int, k: int) -> (int, int, int) {
    (ink_channel(c, k), ink_channel(m, k), ink_channel(y, k))
}

/// The four outputs of `rgb2cymk_spec` are percentages.
pub proof fn lemma_rgb2cymk_range(r: int, g: int, b: int)
    requires
        is_channel(r),
        is_channel(g),
        is_channel(b),
    ensures
        is_percent(rgb2cymk_spec(r, g, b).0),
        is_percent(rgb2cymk_spec(r, g, b).1),
        is_percent(rgb2cymk_spec(r, g, b).2),
        is_percent(rgb2cymk_spec(r, g, b).3),
{
    let max = max3(r, g, b);
    if max != 0 {
        lemma_scaled_quotient_bounds(PERCENT_MAX as int, max - r, max);
        lemma_scaled_quotient_bounds(PERCENT_MAX as int, max - g, max);
        lemma_scaled_quotient_bounds(PERCENT_MAX as int, max - b, max);
    }
}

/// Converts red, green and blue to cyan, yellow, magenta and black ink.
pub fn rgb2cymk(r: i64, g: i64, b: i64) -> (cymk: (i64, i64, i64, i64))
    requires
        is_channel(r as int),
        is_channel(g as int),
        is_channel(b as int),
    ensures
        (cymk.0 as int, cymk.1 as int, cymk.2 as int, cymk.3 as int) == rgb2cymk_spec(
            r as int,
            g as int,
            b as int,
        ),
        is_percent(cymk.0 as int),
        is_percent(cymk.1 as int),
        is_percent(cymk.2 as int),
        is_percent(cymk.3 as int),
{
    proof {
        lemma_rgb2cymk_range(r as int, g as int, b as int);
    }
    let rg: i64 = if r > g {
        r
    } else {
        g
    };
    let max: i64 = if rg > b {
        rg
    } else {
        b
    };
    let k: i64 = PERCENT_MAX * (RGB_MAX - max) / RGB_MAX;
    if max == 0 {
        return (0, 0, 0, k);
    }
    (
        PERCENT_MAX * (max - r) / max,
        PERCENT_MAX * (max - b) / max,
        PERCENT_MAX * (max - g) / max,
        k,
    )
}

/// What an ink leaves under black ink is a channel.
pub proof fn lemma_ink_channel_range(ink: int, k: int)
    requires
        is_percent(ink),
        is_percent(k),
    ensures
        is_channel(ink_channel(ink, k)),
{
    let p = (PERCENT_MAX - ink) * (PERCENT_MAX - k);
    assert(0 <= p <= PERCENT_MAX * PERCENT_MAX) by (nonlinear_arith)
        requires
            0 <= PERCENT_MAX - ink <= PERCENT_MAX,
            0 <= PERCENT_MAX - k <= PERCENT_MAX,
            p == (PERCENT_MAX - ink) * (PERCENT_MAX - k),
    ;
    assert(PERCENT_MAX * PERCENT_MAX == 1_000_000_000_000);
}

/// Converts cyan, yellow, magenta and black ink to red, green and blue.
pub fn cymk2rgb(c: i64, y: i64, m: i64, k: i64) -> (rgb: (i64, i64, i64))
    requires
        is_percent(c as int),
        is_percent(y as int),
        is_percent(m as int),
        is_percent(k as int),
    ensures
        (rgb.0 as int, rgb.1 as int, rgb.2 as int) == cymk2rgb_spec(
            c as int,
            y as int,
            m as int,
            k as int,
        ),
        is_channel(rgb.0 as int),
        is_channel(rgb.1 as int),
        is_channel(rgb.2 as int),
{
    (ink_to_channel(c, k), ink_to_channel(m, k), ink_to_channel(y, k))
}

fn ink_to_channel(ink: i64, k: i64) -> (v: i64)
    requires
        is_percent(ink as int),
        is_percent(k as int),
    ensures
        v == ink_channel(ink as int, k as int),
        is_channel(v as int),
{
    proof {
        lemma_ink_channel_range(ink as int, k as int);
        assert(0 <= (PERCENT_MAX - ink) * (PERCENT_MAX - k) <= PERCENT_MAX * PERCENT_MAX)
            by (nonlinear_arith)
            requires
                0 <= PERCENT_MAX - ink <= PERCENT_MAX,
                0 <= PERCENT_MAX - k <= PERCENT_MAX,
        ;
    }
    let left: i64 = (PERCENT_MAX - ink) * (PERCENT_MAX - k);
    ((RGB_MAX as i128) * (left as i128) / ((PERCENT_MAX as i128) * (PERCENT_MAX as i128))) as i64
}

/// Whether `c` is a hexadecimal digit, in either case.
pub open spec fn is_hex_digit(c: char) -> bool {
    ('0' <= c <= '9') || ('a' <= c <= 'f') || ('A' <= c <= 'F')
}

/// The number that a hexadecimal digit stands for.
pub open spec fn hex_digit_value(c: char) -> int {
    if '0' <= c <= '9' {
        c as int - 48
    } else if 'a' <= c <= 'f' {
        c as int - 87
    } else {
        c as int - 55
    }
}

/// The byte that the two hexadecimal digits at `at` and after it stand for.
pub open spec fn hex_pair(s: Seq<char>, at: int) -> u8 {
    (hex_digit_value(s[at]) * 16 + hex_digit_value(s[at + 1])) as u8
}

/// Red, green and blue of six hexadecimal digits. The text must hold at
/// least six characters, and the first six must be hexadecimal digits; what
/// follows them is not read.
pub open spec fn hex62rgb_spec(s: Seq<char>) -> Result<(u8, u8, u8), ParseError> {
    if s.len() < 6 {
        Err(ParseError::Malformed)
    } else if !(forall|i: int| 0 <= i < 6 ==> is_hex_digit(#[trigger] s[i])) {
        Err(ParseError::InvalidHex)
    } else {
        Ok((hex_pair(s, 0), hex_pair(s, 2), hex_pair(s, 4)))
    }
}

/// The value of a hexadecimal digit, or `None` for another character.
pub fn hex_digit(c: char) -> (r: Option<u8>)
    ensures
        r is Some <==> is_hex_digit(c),
        r matches Some(v) ==> v == hex_digit_value(c) && v < 16,
{
    if c >= '0' && c <= '9' {
        Some((c as u32 - 48) as u8)
    } else if c >= 'a' && c <= 'f' {
        Some((c as u32 - 87) as u8)
    } else if c >= 'A' && c <= 'F' {
        Some((c as u32 - 55) as u8)
    } else {
        None
    }
}

/// The byte of the two hexadecimal digits at `at`, or `None` if one of the
/// two characters is no hexadecimal digit.
pub fn read_hex_pair(s: &Vec<char>, at: usize) -> (r: Option<u8>)
    requires
        at + 2 <= s.len(),
    ensures
        r is Some <==> is_hex_digit(s@[at as int]) && is_hex_digit(s@[at + 1]),
        r matches Some(v) ==> v == hex_pair(s@, at as int),
{
    match hex_digit(s[at]) {
        Some(high) => match hex_digit(s[at + 1]) {
            Some(low) => Some(high * 16 + low),
            None => None,
        },
        None => None,
    }
}

/// Reads red, green and blue from six hexadecimal digits at the start of
/// `s`.
pub fn hex62rgb_chars(s: &Vec<char>) -> (r: Result<(u8, u8, u8), ParseError>)
    ensures
        r == hex62rgb_spec(s@),
{
    if s.len() < 6 {
        return Err(ParseError::Malformed);
    }
    let red: Option<u8> = read_hex_pair(s, 0);
    let green: Option<u8> = read_hex_pair(s, 2);
    let blue: Option<u8> = read_hex_pair(s, 4);
    match (red, green, blue) {
        (Some(r), Some(g), Some(b)) => {
            assert forall|i: int| 0 <= i < 6 implies is_hex_digit(#[trigger] s@[i]) by {
                assert(i == 0 || i == 1 || i == 2 || i == 3 || i == 4 || i == 5);
            }
            Ok((r, g, b))
        },
        _ => Err(ParseError::InvalidHex),
    }
}

/// Reads red, green and blue from six hexadecimal digits, written without a
/// `#` in front.
pub fn hex62rgb(hex: &str) -> (r: Result<(u8, u8, u8), ParseError>)
    ensures
        r == hex62rgb_spec(hex@),
{
    let s: Vec<char> = to_chars(hex);
    hex62rgb_chars(&s)
}

/// The brightness of step `i` of the colour cube: 0 for the first step, and
/// 40 more for each further step, starting from 95.
pub open spec fn cube_level(i: int) -> int {
    if i == 0 {
        0
    } else {
        i * 40 + 55
    }
}

/// Red, green and blue of entry `ansi` of the 256-colour palette. The first
/// 16 entries are those of `low_rgb`; the entries from 16 to 231 form a cube
/// of six steps per channel, red slowest and blue fastest; the last 24 are a
/// ramp of greys.
pub open spec fn ansi2562rgb_spec(ansi: u8, low_rgb: [[u8; 3]; 16]) -> (u8, u8, u8) {
    if ansi < 16 {
        (low_rgb[ansi as int][0], low_rgb[ansi as int][1], low_rgb[ansi as int][2])
    } else if ansi > 231 {
        let grey = ((ansi - 232) * 10 + 8) as u8;
        (grey, grey, grey)
    } else {
        let n = ansi - 16;
        (cube_level(n / 36) as u8, cube_level(n / 6 % 6) as u8, cube_level(n % 6) as u8)
    }
}

/// Looks up entry `ansi` of the 256-colour palette, whose first 16 entries
/// are `low_rgb`.
pub fn ansi2562rgb(ansi: u8, low_rgb: &[[u8; 3]; 16]) -> (rgb: (u8, u8, u8))
    ensures
        rgb == ansi2562rgb_spec(ansi, *low_rgb),
        ansi < 16 ==> rgb == (
            low_rgb[ansi as int][0],
            low_rgb[ansi as int][1],
            low_rgb[ansi as int][2],
        ),
        ansi == 232 ==> rgb == (8u8, 8u8, 8u8),
        ansi == 255 ==> rgb == (238u8, 238u8, 238u8),
{
    if ansi < 16 {
        let entry: [u8; 3] = low_rgb[ansi as usize];
        return (entry[0], entry[1], entry[2]);
    }
    if ansi > 231 {
        let s: u8 = (ansi - 232) * 10 + 8;
        return (s, s, s);
    }
    let n: u8 = ansi - 16;
    let b: u8 = n % 6;
    let g: u8 = n / 6 % 6;
    let r: u8 = n / 36;
    (level_of(r), level_of(g), level_of(b))
}

fn level_of(step: u8) -> (v: u8)
    requires
        step < 6,
    ensures
        v == cube_level(step as int),
{
    if step != 0 {
        step * 40 + 55
    } else {
        0
    }
}

/// The colour number of three channels, each cut down to a whole number.
pub open spec fn rgb2number_spec(r: int, g: int, b: int) -> int {
    (r / (UNIT as int)) * 65536 + (g / (UNIT as int)) * 256 + b / (UNIT as int)
}

/// Packs three channels, each cut down to a whole number, into a colour
/// number.
pub fn rgb2number(r: i64, g: i64, b: i64) -> (n: u32)
    requires
        is_channel(r as int),
        is_channel(g as int),
        is_channel(b as int),
    ensures
        n == rgb2number_spec(r as int, g as int, b as int),
        n <= 0xff_ffff,
{
    ((r / UNIT) * 65536 + (g / UNIT) * 256 + b / UNIT) as u32
}

/// Red, green and blue of a colour number; bits above the lowest 24 are not
/// read.
pub open spec fn number2rgb_spec(number: u32) -> (u8, u8, u8) {
    ((number / 65536 % 256) as u8, (number / 256 % 256) as u8, (number % 256) as u8)
}

/// Unpacks a colour number.
pub fn number2rgb(number: u32) -> (rgb: (u8, u8, u8))
    ensures
        rgb == number2rgb_spec(number),
{
    let b: u32 = number % 256;
    let g: u32 = ((number - b) / 256) % 256;
    let r: u32 = ((number - b) / 65536) % 256;
    (r as u8, g as u8, b as u8)
}

/// The colour number of three bytes.
pub open spec fn pack_rgb(r: int, g: int, b: int) -> int {
    r * 65536 + g * 256 + b
}

/// The colour whose channels are each what the channel of `clr` lacks of 255.
pub open spec fn invert_spec(clr: u32) -> int {
    let (r, g, b) = number2rgb_spec(clr);
    pack_rgb(255 - r, 255 - g, 255 - b)
}

/// The three bytes of a colour number make up its lowest 24 bits.
pub proof fn lemma_pack_unpack(number: u32)
    ensures
        ({
            let (r, g, b) = number2rgb_spec(number);
            pack_rgb(r as int, g as int, b as int) == number % 0x100_0000
        }),
{
    assert(number % 0x100_0000 == (number / 65536 % 256) * 65536 + (number / 256 % 256) * 256
        + number % 256) by (bit_vector);
}

/// Three bytes that are packed come out again when the number is unpacked.
pub proof fn lemma_unpack_pack(r: u8, g: u8, b: u8)
    ensures
        0 <= pack_rgb(r as int, g as int, b as int) <= 0xff_ffff,
        number2rgb_spec(pack_rgb(r as int, g as int, b as int) as u32) == (r, g, b),
{
    let x: u32 = r as u32;
    let y: u32 = g as u32;
    let z: u32 = b as u32;
    let n: u32 = (x * 65536 + y * 256 + z) as u32;
    assert(n / 65536 % 256 == x && n / 256 % 256 == y && n % 256 == z) by (bit_vector)
        requires
            x < 256,
            y < 256,
            z < 256,
            n == x * 65536 + y * 256 + z,
    ;
}

/// Inverts each channel of a colour.
pub fn invert(clr: ColorInt) -> (inv: ColorInt)
    ensures
        inv == invert_spec(clr),
        number2rgb_spec(inv) == (
            (255 - number2rgb_spec(clr).0) as u8,
            (255 - number2rgb_spec(clr).1) as u8,
            (255 - number2rgb_spec(clr).2) as u8,
        ),
        clr <= 0xff_ffff ==> inv == 0xff_ffff - clr,
{
    let (r, g, b) = number2rgb(clr);
    proof {
        lemma_pack_unpack(clr);
        lemma_unpack_pack((255 - r) as u8, (255 - g) as u8, (255 - b) as u8);
    }
    rgb2number((255 - r) as i64 * UNIT, (255 - g) as i64 * UNIT, (255 - b) as i64 * UNIT)
}

/// Inverting twice gives back the lowest 24 bits of a colour number.
pub proof fn lemma_invert_twice(clr: u32)
    ensures
        invert_spec(invert_spec(clr) as u32) == clr % 0x100_0000,
{
    let (r, g, b) = number2rgb_spec(clr);
    lemma_pack_unpack(clr);
    lemma_unpack_pack((255 - r) as u8, (255 - g) as u8, (255 - b) as u8);
}

/// The midpoint between step `i` of the colour cube and the next step.
pub open spec fn cube_midpoint(i: int) -> int {
    (cube_level(i) + cube_level(i + 1)) / 2
}

/// The step of the colour cube that a channel is rounded to: the nearer of
/// the two steps around it, the upper one from their midpoint on.
pub open spec fn cube_step(c: int) -> int {
    if c < cube_midpoint(0) {
        0
    } else if c < cube_midpoint(1) {
        1
    } else if c < cube_midpoint(2) {
        2
    } else if c < cube_midpoint(3) {
        3
    } else if c < cube_midpoint(4) {
        4
    } else {
        5
    }
}

/// The entry of the colour cube that a colour is rounded to, each channel by
/// itself.
pub open spec fn rgb2ansi256_spec(r: u8, g: u8, b: u8) -> int {
    16 + 36 * cube_step(r as int) + 6 * cube_step(g as int) + cube_step(b as int)
}

fn step_of(c: u8) -> (i: u8)
    ensures
        i == cube_step(c as int),
        i < 6,
{
    let mut i: u8 = 0;
    while i < 5 && c as u16 >= (level_of(i) as u16 + level_of(i + 1) as u16) / 2
        invariant
            i <= 5,
            forall|j: int| 0 <= j < i ==> c >= cube_midpoint(j),
        decreases 5 - i,
    {
        i += 1;
    }
    i
}

/// Rounds a colour to the colour cube of the 256-colour palette, each channel
/// by itself, and gives the number of the entry.
pub fn rgb2ansi256(r: u8, g: u8, b: u8) -> (ansi: u8)
    ensures
        ansi == rgb2ansi256_spec(r, g, b),
        16 <= ansi <= 231,
        forall|low_rgb: [[u8; 3]; 16]| #[trigger]
            ansi2562rgb_spec(ansi, low_rgb) == (
                cube_level(cube_step(r as int)) as u8,
                cube_level(cube_step(g as int)) as u8,
                cube_level(cube_step(b as int)) as u8,
            ),
{
    let ri: u8 = step_of(r);
    let gi: u8 = step_of(g);
    let bi: u8 = step_of(b);
    16 + 36 * ri + 6 * gi + bi
}

/// Every entry of the colour cube is what its own colour is rounded to.
pub proof fn lemma_cube_entries_are_fixed(ansi: u8, low_rgb: [[u8; 3]; 16])
    requires
        16 <= ansi <= 231,
    ensures
        ({
            let (r, g, b) = ansi2562rgb_spec(ansi, low_rgb);
            rgb2ansi256_spec(r, g, b) == ansi
        }),
{
}

/// The space in which two colours are mixed.
#[derive(Clone, Copy, Debug, PartialEq, Eq, Structural)]
pub enum MixSpace {
    /// Mix red, green and blue.
    RGB,
    /// Mix hue, saturation and lightness.
    HSL,
}

/// The point that lies `t` of the way from `a` to `b`, where `UNIT` is the
/// whole way.
pub open spec fn lerp(a: int, b: int, t: int) -> int {
    (a * (UNIT - t) + b * t) / (UNIT as int)
}

/// The mix of two colour numbers in red, green and blue.
pub open spec fn color_mix_rgb_spec(clr1: u32, clr2: u32, percent: int) -> int {
    let (r1, g1, b1) = number2rgb_spec(clr1);
    let (r2, g2, b2) = number2rgb_spec(clr2);
    pack_rgb(
        lerp(r1 as int, r2 as int, percent),
        lerp(g1 as int, g2 as int, percent),
        lerp(b1 as int, b2 as int, percent),
    )
}

/// A byte as a fixed-point channel.
pub open spec fn channel_of(byte: u8) -> int {
    byte * UNIT
}

/// The mix of two colour numbers in hue, saturation and lightness. The hue
/// is mixed as a plain number: it does not take the shorter way around the
/// colour wheel.
pub open spec fn color_mix_hsl_spec(clr1: u32, clr2: u32, percent: int) -> int {
    let (r1, g1, b1) = number2rgb_spec(clr1);
    let (r2, g2, b2) = number2rgb_spec(clr2);
    let (h1, s1, l1) = rgb2hsl_spec(channel_of(r1), channel_of(g1), channel_of(b1));
    let (h2, s2, l2) = rgb2hsl_spec(channel_of(r2), channel_of(g2), channel_of(b2));
    let (r, g, b) = hsl2rgb_spec(lerp(h1, h2, percent), lerp(s1, s2, percent), lerp(l1, l2, percent));
    rgb2number_spec(r, g, b)
}

/// The mix of two colour numbers in the given space.
pub open spec fn color_mix_spec(clr1: u32, clr2: u32, percent: int, mix_space: MixSpace) -> int {
    match mix_space {
        MixSpace::RGB => color_mix_rgb_spec(clr1, clr2, percent),
        MixSpace::HSL => color_mix_hsl_spec(clr1, clr2, percent),
    }
}

/// A point between `a` and `b` lies between them, and the two ends are met.
pub proof fn lemma_lerp_between(a: int, b: int, t: int)
    requires
        0 <= t <= UNIT,
    ensures
        min2(a, b) <= lerp(a, b, t) <= crate::math::max2(a, b),
        lerp(a, b, 0) == a,
        lerp(a, b, UNIT as int) == b,
{
    let lo = min2(a, b);
    let hi = crate::math::max2(a, b);
    let n = a * (UNIT - t) + b * t;
    assert(lo * UNIT <= n <= hi * UNIT) by (nonlinear_arith)
        requires
            0 <= t <= UNIT,
            lo <= a <= hi,
            lo <= b <= hi,
            n == a * (UNIT - t) + b * t,
    ;
    assert(a * (UNIT - 0) + b * 0 == a * 10_000) by (nonlinear_arith);
    assert(a * (UNIT - UNIT) + b * UNIT == b * 10_000) by (nonlinear_arith);
}

fn lerp_exec(a: i64, b: i64, t: i64) -> (v: i64)
    requires
        0 <= t <= UNIT,
        0 <= a <= HUE_TURN,
        0 <= b <= HUE_TURN,
    ensures
        v == lerp(a as int, b as int, t as int),
        min2(a as int, b as int) <= v <= crate::math::max2(a as int, b as int),
{
    proof {
        lemma_lerp_between(a as int, b as int, t as int);
        assert(0 <= a * (UNIT - t) <= HUE_TURN * UNIT && 0 <= b * t <= HUE_TURN * UNIT)
            by (nonlinear_arith)
            requires
                0 <= t <= UNIT,
                0 <= a <= HUE_TURN,
                0 <= b <= HUE_TURN,
        ;
    }
    (a * (UNIT - t) + b * t) / UNIT
}

fn color_mix_rgb(clr1: ColorInt, clr2: ColorInt, percent: i64) -> (mixed: ColorInt)
    requires
        0 <= percent <= UNIT,
    ensures
        mixed == color_mix_rgb_spec(clr1, clr2, percent as int),
        mixed <= 0xff_ffff,
{
    let (r1, g1, b1) = number2rgb(clr1);
    let (r2, g2, b2) = number2rgb(clr2);
    let r: i64 = lerp_exec(r1 as i64, r2 as i64, percent);
    let g: i64 = lerp_exec(g1 as i64, g2 as i64, percent);
    let b: i64 = lerp_exec(b1 as i64, b2 as i64, percent);
    (r * 65536 + g * 256 + b) as u32
}

fn color_mix_hsl(clr1: ColorInt, clr2: ColorInt, percent: i64) -> (mixed: ColorInt)
    requires
        0 <= percent <= UNIT,
    ensures
        mixed == color_mix_hsl_spec(clr1, clr2, percent as int),
        mixed <= 0xff_ffff,
{
    let (r1, g1, b1) = number2rgb(clr1);
    let (h1, s1, l1) = rgb2hsl(r1 as i64 * UNIT, g1 as i64 * UNIT, b1 as i64 * UNIT);
    let (r2, g2, b2) = number2rgb(clr2);
    let (h2, s2, l2) = rgb2hsl(r2 as i64 * UNIT, g2 as i64 * UNIT, b2 as i64 * UNIT);
    let (r, g, b) = hsl2rgb(
        lerp_exec(h1, h2, percent),
        lerp_exec(s1, s2, percent),
        lerp_exec(l1, l2, percent),
    );
    rgb2number(r, g, b)
}

/// Mixes two colours: `percent` of the way from `clr1` to `clr2`, where 0
/// gives `clr1` and `UNIT` gives `clr2`, channel by channel in the given
/// space.
pub fn color_mix(clr1: ColorInt, clr2: ColorInt, percent: i64, mix_space: &MixSpace) -> (mixed:
    ColorInt)
    requires
        0 <= percent <= UNIT,
    ensures
        mixed == color_mix_spec(clr1, clr2, percent as int, *mix_space),
        mixed <= 0xff_ffff,
{
    match mix_space {
        MixSpace::RGB => color_mix_rgb(clr1, clr2, percent),
        MixSpace::HSL => color_mix_hsl(clr1, clr2, percent),
    }
}

/// In red, green and blue the mix is a colour number, none of the way gives
/// the first colour, and the whole way gives the second.
pub proof fn lemma_mix_rgb_ends(clr1: u32, clr2: u32, percent: int)
    requires
        0 <= percent <= UNIT,
    ensures
        0 <= color_mix_rgb_spec(clr1, clr2, percent) <= 0xff_ffff,
        color_mix_rgb_spec(clr1, clr2, 0) == clr1 % 0x100_0000,
        color_mix_rgb_spec(clr1, clr2, UNIT as int) == clr2 % 0x100_0000,
{
    let (r1, g1, b1) = number2rgb_spec(clr1);
    let (r2, g2, b2) = number2rgb_spec(clr2);
    lemma_lerp_between(r1 as int, r2 as int, percent);
    lemma_lerp_between(g1 as int, g2 as int, percent);
    lemma_lerp_between(b1 as int, b2 as int, percent);
    lemma_pack_unpack(clr1);
    lemma_pack_unpack(clr2);
}

/// The standard by which a colour name is resolved.
#[derive(Clone, Copy, Debug, PartialEq, Eq, Structural)]
pub enum ColorNameStandard {
    /// The names of the X11 display server.
    X11,
    /// The names standardised for the web.
    W3C,
    /// The names of the XTerm terminal.
    XTerm,
    /// The names of the terminal in use, whose palette the caller supplies.
    MyTerm,
}

impl ColorNameStandard {
    /// Grey, which the X11 names make lighter than the others do.
    pub open spec fn gray_spec(self) -> [u8; 3] {
        match self {
            Self::X11 => [0xbeu8, 0xbeu8, 0xbeu8],
            _ => [0x80u8, 0x80u8, 0x80u8],
        }
    }

    /// Grey, which the X11 names make lighter than the others do.
    pub fn gray(&self) -> (c: [u8; 3])
        ensures
            c == self.gray_spec(),
    {
        match self {
            Self::X11 => [0xbe, 0xbe, 0xbe],
            _ => [0x80, 0x80, 0x80],
        }
    }

    /// The terminal colour "black": palette entry 0 of the terminal for `MyTerm`,
    /// a fixed colour for the other standards.
    pub open spec fn black_spec(self, term: [[u8; 3]; 16]) -> [u8; 3] {
        match self {
            Self::MyTerm => term[0],
            _ => [0x00u8, 0x00u8, 0x00u8],
        }
    }

    /// The terminal colour "black": palette entry 0 of the terminal for `MyTerm`,
    /// a fixed colour for the other standards.
    pub fn black(&self, term: &[[u8; 3]; 16]) -> (c: [u8; 3])
        ensures
            c == self.black_spec(*term),
    {
        match self {
            Self::MyTerm => term[0],
            _ => [0x00, 0x00, 0x00],
        }
    }

    /// The terminal colour "bright black": palette entry 8 of the terminal for `MyTerm`,
    /// a fixed colour for the other standards.
    pub open spec fn bright_black_spec(self, term: [[u8; 3]; 16]) -> [u8; 3] {
        match self {
            Self::MyTerm => term[8],
            Self::XTerm => [0x4du8, 0x4du8, 0x4du8],
            _ => [0xffu8, 0x00u8, 0x00u8],
        }
    }

    /// The terminal colour "bright black": palette entry 8 of the terminal for `MyTerm`,
    /// a fixed colour for the other standards.
    pub fn bright_black(&self, term: &[[u8; 3]; 16]) -> (c: [u8; 3])
        ensures
            c == self.bright_black_spec(*term),
    {
        match self {
            Self::MyTerm => term[8],
            Self::XTerm => [0x4d, 0x4d, 0x4d],
            _ => [0xff, 0x00, 0x00],
        }
    }

    /// The terminal colour "red": palette entry 1 of the terminal for `MyTerm`,
    /// a fixed colour for the other standards.
    pub open spec fn red_spec(self, term: [[u8; 3]; 16]) -> [u8; 3] {
        match self {
            Self::XTerm => [0xcdu8, 0x00u8, 0x00u8],
            Self::MyTerm => term[1],
            _ => [0xffu8, 0x00u8, 0x00u8],
        }
    }

    /// The terminal colour "red": palette entry 1 of the terminal for `MyTerm`,
    /// a fixed colour for the other standards.
    pub fn red(&self, term: &[[u8; 3]; 16]) -> (c: [u8; 3])
        ensures
            c == self.red_spec(*term),
    {
        match self {
            Self::XTerm => [0xcd, 0x00, 0x00],
            Self::MyTerm => term[1],
            _ => [0xff, 0x00, 0x00],
        }
    }

    /// The terminal colour "bright red": palette entry 9 of the terminal for `MyTerm`,
    /// a fixed colour for the other standards.
    pub open spec fn bright_red_spec(self, term: [[u8; 3]; 16]) -> [u8; 3] {
        match self {
            Self::MyTerm => term[9],
            _ => [0xffu8, 0x00u8, 0x00u8],
        }
    }

    /// The terminal colour "bright red": palette entry 9 of the terminal for `MyTerm`,
    /// a fixed colour for the other standards.
    pub fn bright_red(&self, term: &[[u8; 3]; 16]) -> (c: [u8; 3])
        ensures
            c == self.bright_red_spec(*term),
    {
        match self {
            Self::MyTerm => term[9],
            _ => [0xff, 0x00, 0x00],
        }
    }

    /// The terminal colour "green": palette entry 2 of the terminal for `MyTerm`,
    /// a fixed colour for the other standards.
    pub open spec fn green_spec(self, term: [[u8; 3]; 16]) -> [u8; 3] {
        match self {
            Self::X11 => [0x00u8, 0xffu8, 0x00u8],
            Self::XTerm => [0x00u8, 0xcdu8, 0x00u8],
            Self::MyTerm => term[2],
            _ => [0x00u8, 0x80u8, 0x00u8],
        }
    }

    /// The terminal colour "green": palette entry 2 of the terminal for `MyTerm`,
    /// a fixed colour for the other standards.
    pub fn green(&self, term: &[[u8; 3]; 16]) -> (c: [u8; 3])
        ensures
            c == self.green_spec(*term),
    {
        match self {
            Self::X11 => [0x00, 0xff, 0x00],
            Self::XTerm => [0x00, 0xcd, 0x00],
            Self::MyTerm => term[2],
            _ => [0x00, 0x80, 0x00],
        }
    }

    /// The terminal colour "bright green": palette entry 10 of the terminal for `MyTerm`,
    /// a fixed colour for the other standards.
    pub open spec fn bright_green_spec(self, term: [[u8; 3]; 16]) -> [u8; 3] {
        match self {
            Self::MyTerm => term[10],
            _ => [0x00u8, 0xffu8, 0x00u8],
        }
    }

    /// The terminal colour "bright green": palette entry 10 of the terminal for `MyTerm`,
    /// a fixed colour for the other standards.
    pub fn bright_green(&self, term: &[[u8; 3]; 16]) -> (c: [u8; 3])
        ensures
            c == self.bright_green_spec(*term),
    {
        match self {
            Self::MyTerm => term[10],
            _ => [0x00, 0xff, 0x00],
        }
    }

    /// The terminal colour "yellow": palette entry 3 of the terminal for `MyTerm`,
    /// a fixed colour for the other standards.
    pub open spec fn yellow_spec(self, term: [[u8; 3]; 16]) -> [u8; 3] {
        match self {
            Self::XTerm => [0xcdu8, 0xcdu8, 0x00u8],
            Self::MyTerm => term[3],
            _ => [0xffu8, 0xffu8, 0x00u8],
        }
    }

    /// The terminal colour "yellow": palette entry 3 of the terminal for `MyTerm`,
    /// a fixed colour for the other standards.
    pub fn yellow(&self, term: &[[u8; 3]; 16]) -> (c: [u8; 3])
        ensures
            c == self.yellow_spec(*term),
    {
        match self {
            Self::XTerm => [0xcd, 0xcd, 0x00],
            Self::MyTerm => term[3],
            _ => [0xff, 0xff, 0x00],
        }
    }

    /// The terminal colour "blue": palette entry 4 of the terminal for `MyTerm`,
    /// a fixed colour for the other standards.
    pub open spec fn blue_spec(self, term: [[u8; 3]; 16]) -> [u8; 3] {
        match self {
            Self::XTerm => [0x00u8, 0x00u8, 0xcdu8],
            Self::MyTerm => term[4],
            _ => [0x00u8, 0x00u8, 0xffu8],
        }
    }

    /// The terminal colour "blue": palette entry 4 of the terminal for `MyTerm`,
    /// a fixed colour for the other standards.
    pub fn blue(&self, term: &[[u8; 3]; 16]) -> (c: [u8; 3])
        ensures
            c == self.blue_spec(*term),
    {
        match self {
            Self::XTerm => [0x00, 0x00, 0xcd],
            Self::MyTerm => term[4],
            _ => [0x00, 0x00, 0xff],
        }
    }

    /// The terminal colour "bright blue": palette entry 12 of the terminal for `MyTerm`,
    /// a fixed colour for the other standards.
    pub open spec fn bright_blue_spec(self, term: [[u8; 3]; 16]) -> [u8; 3] {
        match self {
            Self::MyTerm => term[12],
            _ => [0x00u8, 0x00u8, 0xffu8],
        }
    }

    /// The terminal colour "bright blue": palette entry 12 of the terminal for `MyTerm`,
    /// a fixed colour for the other standards.
    pub fn bright_blue(&self, term: &[[u8; 3]; 16]) -> (c: [u8; 3])
        ensures
            c == self.bright_blue_spec(*term),
    {
        match self {
            Self::MyTerm => term[12],
            _ => [0x00, 0x00, 0xff],
        }
    }

    /// The terminal colour "magenta": palette entry 5 of the terminal for `MyTerm`,
    /// a fixed colour for the other standards.
    pub open spec fn magenta_spec(self, term: [[u8; 3]; 16]) -> [u8; 3] {
        match self {
            Self::XTerm => [0xcdu8, 0x00u8, 0xcdu8],
            Self::MyTerm => term[5],
            _ => [0xffu8, 0x00u8, 0xffu8],
        }
    }

    /// The terminal colour "magenta": palette entry 5 of the terminal for `MyTerm`,
    /// a fixed colour for the other standards.
    pub fn magenta(&self, term: &[[u8; 3]; 16]) -> (c: [u8; 3])
        ensures
            c == self.magenta_spec(*term),
    {
        match self {
            Self::XTerm => [0xcd, 0x00, 0xcd],
            Self::MyTerm => term[5],
            _ => [0xff, 0x00, 0xff],
        }
    }

    /// The terminal colour "bright magenta": palette entry 13 of the terminal for `MyTerm`,
    /// a fixed colour for the other standards.
    pub open spec fn bright_magenta_spec(self, term: [[u8; 3]; 16]) -> [u8; 3] {
        match self {
            Self::MyTerm => term[13],
            _ => [0xffu8, 0x00u8, 0xffu8],
        }
    }

    /// The terminal colour "bright magenta": palette entry 13 of the terminal for `MyTerm`,
    /// a fixed colour for the other standards.
    pub fn bright_magenta(&self, term: &[[u8; 3]; 16]) -> (c: [u8; 3])
        ensures
            c == self.bright_magenta_spec(*term),
    {
        match self {
            Self::MyTerm => term[13],
            _ => [0xff, 0x00, 0xff],
        }
    }

    /// The terminal colour "cyan": palette entry 6 of the terminal for `MyTerm`,
    /// a fixed colour for the other standards.
    pub open spec fn cyan_spec(self, term: [[u8; 3]; 16]) -> [u8; 3] {
        match self {
            Self::XTerm => [0x00u8, 0xcdu8, 0xcdu8],
            Self::MyTerm => term[6],
            _ => [0x00u8, 0xffu8, 0xffu8],
        }
    }

    /// The terminal colour "cyan": palette entry 6 of the terminal for `MyTerm`,
    /// a fixed colour for the other standards.
    pub fn cyan(&self, term: &[[u8; 3]; 16]) -> (c: [u8; 3])
        ensures
            c == self.cyan_spec(*term),
    {
        match self {
            Self::XTerm => [0x00, 0xcd, 0xcd],
            Self::MyTerm => term[6],
            _ => [0x00, 0xff, 0xff],
        }
    }

    /// The terminal colour "bright cyan": palette entry 14 of the terminal for `MyTerm`,
    /// a fixed colour for the other standards.
    pub open spec fn bright_cyan_spec(self, term: [[u8; 3]; 16]) -> [u8; 3] {
        match self {
            Self::MyTerm => term[14],
            _ => [0x00u8, 0xffu8, 0xffu8],
        }
    }

    /// The terminal colour "bright cyan": palette entry 14 of the terminal for `MyTerm`,
    /// a fixed colour for the other standards.
    pub fn bright_cyan(&self, term: &[[u8; 3]; 16]) -> (c: [u8; 3])
        ensures
            c == self.bright_cyan_spec(*term),
    {
        match self {
            Self::MyTerm => term[14],
            _ => [0x00, 0xff, 0xff],
        }
    }

    /// The terminal colour "white": palette entry 7 of the terminal for `MyTerm`,
    /// a fixed colour for the other standards.
    pub open spec fn white_spec(self, term: [[u8; 3]; 16]) -> [u8; 3] {
        match self {
            Self::XTerm => [0xe5u8, 0xe5u8, 0xe5u8],
            Self::MyTerm => term[7],
            _ => [0xffu8, 0xffu8, 0xffu8],
        }
    }

    /// The terminal colour "white": palette entry 7 of the terminal for `MyTerm`,
    /// a fixed colour for the other standards.
    pub fn white(&self, term: &[[u8; 3]; 16]) -> (c: [u8; 3])
        ensures
            c == self.white_spec(*term),
    {
        match self {
            Self::XTerm => [0xe5, 0xe5, 0xe5],
            Self::MyTerm => term[7],
            _ => [0xff, 0xff, 0xff],
        }
    }

    /// The terminal colour "bright white": palette entry 15 of the terminal for `MyTerm`,
    /// a fixed colour for the other standards.
    pub open spec fn bright_white_spec(self, term: [[u8; 3]; 16]) -> [u8; 3] {
        match self {
            Self::MyTerm => term[15],
            _ => [0xffu8, 0xffu8, 0xffu8],
        }
    }

    /// The terminal colour "bright white": palette entry 15 of the terminal for `MyTerm`,
    /// a fixed colour for the other standards.
    pub fn bright_white(&self, term: &[[u8; 3]; 16]) -> (c: [u8; 3])
        ensures
            c == self.bright_white_spec(*term),
    {
        match self {
            Self::MyTerm => term[15],
            _ => [0xff, 0xff, 0xff],
        }
    }

    /// The terminal colour "bright yellow": palette entry 11 of the terminal for `MyTerm`,
    /// a fixed colour for the other standards.
    pub open spec fn bright_yellow_spec(self, term: [[u8; 3]; 16]) -> [u8; 3] {
        match self {
            Self::MyTerm => term[11],
            _ => [0xffu8, 0xffu8, 0x00u8],
        }
    }

    /// The terminal colour "bright yellow": palette entry 11 of the terminal for `MyTerm`,
    /// a fixed colour for the other standards.
    pub fn bright_yellow(&self, term: &[[u8; 3]; 16]) -> (c: [u8; 3])
        ensures
            c == self.bright_yellow_spec(*term),
    {
        match self {
            Self::MyTerm => term[11],
            _ => [0xff, 0xff, 0x00],
        }
    }

    /// Maroon, which the X11 names make redder than the others do.
    pub open spec fn maroon_spec(self) -> [u8; 3] {
        match self {
            Self::X11 => [0xb0u8, 0x30u8, 0x60u8],
            _ => [0x80u8, 0x00u8, 0x00u8],
        }
    }

    /// Maroon, which the X11 names make redder than the others do.
    pub fn maroon(&self) -> (c: [u8; 3])
        ensures
            c == self.maroon_spec(),
    {
        match self {
            Self::X11 => [0xb0, 0x30, 0x60],
            _ => [0x80, 0x00, 0x00],
        }
    }

    /// Purple, which the X11 names make bluer than the others do.
    pub open spec fn purple_spec(self) -> [u8; 3] {
        match self {
            Self::X11 => [0xa0u8, 0x20u8, 0xf0u8],
            _ => [0x80u8, 0x00u8, 0x80u8],
        }
    }

    /// Purple, which the X11 names make bluer than the others do.
    pub fn purple(&self) -> (c: [u8; 3])
        ensures
            c == self.purple_spec(),
    {
        match self {
            Self::X11 => [0xa0, 0x20, 0xf0],
            _ => [0x80, 0x00, 0x80],
        }
    }
}

/// The colour of the first entry at or after `from` whose name is `name`.
pub open spec fn find_color_from(
    standard: ColorNameStandard,
    term: [[u8; 3]; 16],
    name: Seq<char>,
    from: int,
) -> Option<[u8; 3]>
    decreases COLOR_COUNT - from,
{
    if from < 0 || from >= COLOR_COUNT {
        None
    } else if color_entry_spec(standard, term, from).0 == name {
        Some(color_entry_spec(standard, term, from).1)
    } else {
        find_color_from(standard, term, name, from + 1)
    }
}

/// The colour that `name` stands for under `standard`, or `None` for a name
/// that the table does not hold.
pub open spec fn find_color(standard: ColorNameStandard, term: [[u8; 3]; 16], name: Seq<char>)
    -> Option<[u8; 3]> {
    find_color_from(standard, term, name, 0)
}

/// A colour written as `#` and six lower-case hexadecimal digits.
pub open spec fn hex_color_text(rgb: [u8; 3]) -> Seq<char> {
    seq!['#'] + hex_padded(rgb[0] as nat, 2) + hex_padded(rgb[1] as nat, 2) + hex_padded(
        rgb[2] as nat,
        2,
    )
}

impl ColorNameStandard {
    /// The table of colour names: each name with its red, green and blue.
    /// `term` is the palette of the terminal, which only `MyTerm` reads.
    pub fn list_colors(&self, term: &[[u8; 3]; 16]) -> (colors: Vec<(&'static str, [u8; 3])>)
        ensures
            colors.len() == COLOR_COUNT,
            forall|i: int|
                0 <= i < COLOR_COUNT ==> (#[trigger] colors[i].0@, colors[i].1) == color_entry_spec(
                    *self,
                    *term,
                    i,
                ),
    {
        let mut colors: Vec<(&'static str, [u8; 3])> = Vec::new();
        let mut i: usize = 0;
        while i < COLOR_COUNT
            invariant
                i <= COLOR_COUNT,
                colors.len() == i,
                forall|j: int|
                    0 <= j < i ==> (#[trigger] colors[j].0@, colors[j].1) == color_entry_spec(
                        *self,
                        *term,
                        j,
                    ),
            decreases COLOR_COUNT - i,
        {
            colors.push(color_entry(self, term, i));
            i += 1;
        }
        colors
    }

    /// The colour that `clr` names, or `None` for a name that the table does
    /// not hold.
    pub fn lookup(&self, clr: &str, term: &[[u8; 3]; 16]) -> (found: Option<[u8; 3]>)
        ensures
            found == find_color(*self, *term, clr@),
    {
        let name: Vec<char> = to_chars(clr);
        let mut i: usize = 0;
        while i < COLOR_COUNT
            invariant
                i <= COLOR_COUNT,
                name@ == clr@,
                find_color(*self, *term, clr@) == find_color_from(*self, *term, clr@, i as int),
            decreases COLOR_COUNT - i,
        {
            let entry: (&'static str, [u8; 3]) = color_entry(self, term, i);
            let entry_name: Vec<char> = to_chars(entry.0);
            if chars_eq(&entry_name, &name) {
                return Some(entry.1);
            }
            i += 1;
        }
        None
    }

    /// The colour that `clr` names, as `#` and six hexadecimal digits; black
    /// for a name that the table does not hold.
    pub fn get_color(&self, clr: &str, term: &[[u8; 3]; 16]) -> (hex: String)
        ensures
            hex@ == hex_color_text(
                match find_color(*self, *term, clr@) {
                    Some(rgb) => rgb,
                    None => [0u8, 0u8, 0u8],
                },
            ),
    {
        let rgb: [u8; 3] = match self.lookup(clr, term) {
            Some(rgb) => rgb,
            None => [0, 0, 0],
        };
        let mut hex: String = String::new();
        hex.push('#');
        push_hex_padded(&mut hex, rgb[0] as u64, 2);
        push_hex_padded(&mut hex, rgb[1] as u64, 2);
        push_hex_padded(&mut hex, rgb[2] as u64, 2);
        proof {
            assert(Seq::<char>::empty().push('#') == seq!['#']);
        }
        hex
    }
}

/// The colour that `name` stands for under `color_name_standard`, as `#` and
/// six hexadecimal digits; black for a name that the table does not hold.
pub fn name_to_hex(name: &str, color_name_standard: &ColorNameStandard, term: &[[u8; 3]; 16])
    -> (hex: String)
    ensures
        hex@ == hex_color_text(
            match find_color(*color_name_standard, *term, name@) {
                Some(rgb) => rgb,
                None => [0u8, 0u8, 0u8],
            },
        ),
{
    color_name_standard.get_color(name, term)
}

/// The luminance of white: luminances are fixed-point numbers with seven
/// digits after the point.
pub const LUMINANCE_ONE: i64 = 10_000_000;

/// The largest channel whose brightness grows in a straight line with the
/// channel: 0.03928 of the largest channel.
pub const LINEAR_LIMIT: i64 = 100_164;

/// The fifth power of a number.
pub open spec fn pow5(x: int) -> int {
    x * x * x * x * x
}

/// Whether `r` is the fifth root of `n`, rounded down.
pub open spec fn is_fifth_root(r: int, n: int) -> bool {
    0 <= r && pow5(r) <= n < pow5(r + 1)
}

/// The fifth root of `n`, rounded down.
pub open spec fn fifth_root(n: int) -> int {
    choose|r: int| is_fifth_root(r, n)
}

/// A larger number has a larger fifth power.
pub proof fn lemma_pow5_grows(x: int, y: int)
    requires
        0 <= x <= y,
    ensures
        0 <= pow5(x) <= pow5(y),
{
    let x2 = x * x;
    let y2 = y * y;
    assert(0 <= x2 <= y2) by (nonlinear_arith)
        requires
            0 <= x <= y,
            x2 == x * x,
            y2 == y * y,
    ;
    let x4 = x2 * x2;
    let y4 = y2 * y2;
    assert(0 <= x4 <= y4) by (nonlinear_arith)
        requires
            0 <= x2 <= y2,
            x4 == x2 * x2,
            y4 == y2 * y2,
    ;
    assert(0 <= x4 * x <= y4 * y) by (nonlinear_arith)
        requires
            0 <= x4 <= y4,
            0 <= x <= y,
    ;
    assert(pow5(x) == x4 * x && pow5(y) == y4 * y) by (nonlinear_arith)
        requires
            x4 == (x * x) * (x * x),
            y4 == (y * y) * (y * y),
    ;
}

/// A number has one fifth root, rounded down.
pub proof fn lemma_fifth_root_unique(r: int, n: int)
    requires
        is_fifth_root(r, n),
    ensures
        fifth_root(n) == r,
{
    let other = fifth_root(n);
    assert(is_fifth_root(other, n));
    if other < r {
        lemma_pow5_grows(other + 1, r);
    } else if r < other {
        lemma_pow5_grows(r + 1, other);
    }
}

/// The fifth power of a number up to a little more than `LUMINANCE_ONE`.
fn fifth_power(x: u128) -> (p: u128)
    requires
        x <= 10_000_001,
    ensures
        p == pow5(x as int),
{
    proof {
        lemma_pow5_grows(x as int, 10_000_001);
        assert(pow5(10_000_001) == 100_000_050_000_010_000_001_000_000_050_000_001)
            by (nonlinear_arith);
        let x2 = x * x;
        assert(0 <= x2 <= 100_000_020_000_001) by (nonlinear_arith)
            requires
                0 <= x <= 10_000_001,
                x2 == x * x,
        ;
        assert(0 <= x2 * x <= 1_000_000_300_000_030_000_001) by (nonlinear_arith)
            requires
                0 <= x <= 10_000_001,
                0 <= x2 <= 100_000_020_000_001,
        ;
        assert(0 <= x2 * x * x <= 10_000_004_000_000_600_000_040_000_001) by (nonlinear_arith)
            requires
                0 <= x <= 10_000_001,
                0 <= x2 * x <= 1_000_000_300_000_030_000_001,
        ;
    }
    x * x * x * x * x
}

/// The fifth root of a number up to the fifth power of `LUMINANCE_ONE`,
/// rounded down.
pub fn fifth_root_floor(n: u128) -> (r: u128)
    requires
        n <= 100_000_000_000_000_000_000_000_000_000_000_000,
    ensures
        r == fifth_root(n as int),
        is_fifth_root(r as int, n as int),
        r <= LUMINANCE_ONE,
{
    let mut lo: u128 = 0;
    let mut hi: u128 = 10_000_001;
    proof {
        assert(pow5(0) == 0) by (nonlinear_arith);
        assert(pow5(10_000_001) == 100_000_050_000_010_000_001_000_000_050_000_001)
            by (nonlinear_arith);
    }
    while hi - lo > 1
        invariant
            lo < hi <= 10_000_001,
            pow5(lo as int) <= n < pow5(hi as int),
        decreases hi - lo,
    {
        let mid: u128 = lo + (hi - lo) / 2;
        if fifth_power(mid) <= n {
            lo = mid;
        } else {
            hi = mid;
        }
    }
    proof {
        lemma_fifth_root_unique(lo as int, n as int);
    }
    lo
}

/// The share of light that a channel gives, from 0 to `LUMINANCE_ONE`: the
/// channel as a share of its largest value, in a straight line up to
/// `LINEAR_LIMIT` (the share over 12.92), and above it the power 2.4 of the
/// share, moved by 0.055 and over 1.055. The power 2.4 of a number is its
/// square times the fifth root of its square; each step rounds down.
pub open spec fn linear_channel(c: int) -> int {
    if c <= LINEAR_LIMIT {
        100 * LUMINANCE_ONE * c / (329_460 * UNIT)
    } else {
        let num = 1000 * c + 14_025 * UNIT;
        let den = 269_025 * UNIT;
        let square = LUMINANCE_ONE * (num * num) / (den * den);
        let root = fifth_root(square * 10_000_000_000_000_000_000_000_000_000);
        square * root / (LUMINANCE_ONE as int)
    }
}

/// The relative luminance of a colour: 0.2126 of the light of red, 0.7152
/// of the light of green and 0.0722 of the light of blue.
pub open spec fn luminance_spec(color: [i64; 3]) -> int {
    (2126 * linear_channel(color[0] as int) + 7152 * linear_channel(color[1] as int) + 722
        * linear_channel(color[2] as int)) / 10_000
}

/// The contrast of two colours: the brighter luminance plus 0.05 over the
/// darker luminance plus 0.05, as a fixed-point number.
pub open spec fn contrast_spec(col1: [i64; 3], col2: [i64; 3]) -> int {
    let lum1 = luminance_spec(col1);
    let lum2 = luminance_spec(col2);
    let brightest = crate::math::max2(lum1, lum2);
    let darkest = min2(lum1, lum2);
    UNIT * (brightest + 500_000) / (darkest + 500_000)
}

/// Whether the three channels of a colour lie in their range.
pub open spec fn is_color(color: [i64; 3]) -> bool {
    is_channel(color[0] as int) && is_channel(color[1] as int) && is_channel(color[2] as int)
}

proof fn lemma_square_share(num: int, den: int)
    requires
        0 <= num <= den,
        0 < den,
    ensures
        0 <= LUMINANCE_ONE * (num * num) / (den * den) <= LUMINANCE_ONE,
        0 < den * den,
        0 <= num * num <= den * den,
{
    let n2 = num * num;
    let d2 = den * den;
    assert(0 <= n2 <= d2 && 0 < d2) by (nonlinear_arith)
        requires
            0 <= num <= den,
            0 < den,
            n2 == num * num,
            d2 == den * den,
    ;
    lemma_floor_div_bounds(LUMINANCE_ONE * n2, d2);
    let q = LUMINANCE_ONE * n2 / d2;
    assert(0 <= q <= 10_000_000) by (nonlinear_arith)
        requires
            q * d2 <= 10_000_000 * n2 < q * d2 + d2,
            0 <= n2 <= d2,
            0 < d2,
    ;
}

fn channel_light(c: i64) -> (light: i64)
    requires
        is_channel(c as int),
    ensures
        light == linear_channel(c as int),
        0 <= light <= LUMINANCE_ONE,
{
    if c <= LINEAR_LIMIT {
        let scale: i64 = 100 * LUMINANCE_ONE;
        assert(scale * c == 1_000_000_000 * c);
        scale * c / (329_460 * UNIT)
    } else {
        let num: u128 = (1000 * c + 14_025 * UNIT) as u128;
        let den: u128 = (269_025 * UNIT) as u128;
        proof {
            lemma_square_share(num as int, den as int);
            assert(den * den == 7_237_445_062_500_000_000);
        }
        let square: u128 = (LUMINANCE_ONE as u128) * (num * num) / (den * den);
        let root: u128 = fifth_root_floor(square * 10_000_000_000_000_000_000_000_000_000);
        proof {
            assert(0 <= square * root <= 100_000_000_000_000) by (nonlinear_arith)
                requires
                    0 <= square <= 10_000_000,
                    0 <= root <= 10_000_000,
            ;
        }
        (square * root / (LUMINANCE_ONE as u128)) as i64
    }
}

/// The relative luminance of a colour, from 0 for black to `LUMINANCE_ONE`
/// for white.
pub fn luminance(color: [i64; 3]) -> (lum: i64)
    requires
        is_color(color),
    ensures
        lum == luminance_spec(color),
        0 <= lum <= LUMINANCE_ONE,
{
    let r: i64 = channel_light(color[0]);
    let g: i64 = channel_light(color[1]);
    let b: i64 = channel_light(color[2]);
    (2126 * r + 7152 * g + 722 * b) / 10_000
}

/// The contrast of two colours, from `UNIT` for colours of one luminance to
/// 21 times `UNIT` for black and white.
pub fn contrast(col1: [i64; 3], col2: [i64; 3]) -> (ratio: i64)
    requires
        is_color(col1),
        is_color(col2),
    ensures
        ratio == contrast_spec(col1, col2),
        UNIT <= ratio <= 21 * UNIT,
        ratio == contrast_spec(col2, col1),
{
    let lum1: i64 = luminance(col1);
    let lum2: i64 = luminance(col2);
    let brightest: i64 = if lum1 > lum2 {
        lum1
    } else {
        lum2
    };
    let darkest: i64 = if lum1 < lum2 {
        lum1
    } else {
        lum2
    };
    proof {
        lemma_floor_div_bounds(UNIT * (brightest + 500_000), darkest + 500_000);
        let q = UNIT * (brightest + 500_000) / ((darkest + 500_000) as int);
        assert(10_000 <= q <= 210_000) by (nonlinear_arith)
            requires
                q * (darkest + 500_000) <= 10_000 * (brightest + 500_000) < q * (darkest + 500_000)
                    + (darkest + 500_000),
                0 <= darkest <= brightest <= 10_000_000,
        ;
    }
    UNIT * (brightest + 500_000) / (darkest + 500_000)
}

} // verus!
