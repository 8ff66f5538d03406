//! A colour held as red, green, blue and alpha, with the edits that the picker
//! makes to it.
//!
//! Red, green and blue are the stored form. Hue, saturation, lightness and
//! the inks are worked out from them on every read, so that no two forms of
//! one colour can disagree.

use vstd::prelude::*;
use crate::color_conversions::{
    cymk2rgb, cymk2rgb_spec, find_color, hex_digit, hex_digit_value, hex_pair, hsl2rgb,
    hsl2rgb_spec, is_channel, is_hex_digit, number2rgb, number2rgb_spec, rgb2ansi256,
    rgb2ansi256_spec, rgb2cymk, rgb2cymk_spec, rgb2hsl, rgb2hsl_spec, rgb2number,
    rgb2number_spec, ColorInt, ColorNameStandard,
};
use crate::error::ParseError;
use crate::math::{clamp_spec, clamp_with_bel, HUE_MAX, PERCENT_MAX, RGB_MAX, UNIT};
use crate::output_type::{OutputModel, OutputType};
use crate::text::{
    contains_char, decimal, digit_value, find_char, fixed2, hex_padded, is_digit, parse_decimal,
    parse_number_spec, parse_u8, parse_u8_spec, push_decimal, push_fixed2, push_hex_padded,
    push_str, slice_chars, split, split_spec, starts_with, starts_with_spec, to_chars, trim,
    trim_spec, views,
};

verus! {

/// What a colour is: three fixed-point channels and a whole alpha.
pub struct Rgba {
    pub r: int,
    pub g: int,
    pub b: int,
    pub a: int,
}

impl Rgba {
    /// Whether every channel lies in its range.
    pub open spec fn wf(self) -> bool {
        is_channel(self.r) && is_channel(self.g) && is_channel(self.b) && 0 <= self.a <= 255
    }

    /// Hue, saturation and lightness of the colour.
    pub open spec fn hsl(self) -> (int, int, int) {
        rgb2hsl_spec(self.r, self.g, self.b)
    }

    /// Cyan, yellow, magenta and black ink of the colour.
    pub open spec fn cymk(self) -> (int, int, int, int) {
        rgb2cymk_spec(self.r, self.g, self.b)
    }

    /// The colour number of the three channels, each cut down to a whole
    /// number.
    pub open spec fn integer(self) -> int {
        rgb2number_spec(self.r, self.g, self.b)
    }

    /// The same colour with other red, green and blue.
    pub open spec fn with_rgb(self, rgb: (int, int, int)) -> Rgba {
        Rgba { r: rgb.0, g: rgb.1, b: rgb.2, a: self.a }
    }

    /// The same colour with another alpha.
    pub open spec fn with_alpha(self, a: int) -> Rgba {
        Rgba { r: self.r, g: self.g, b: self.b, a }
    }
}

/// The opaque colour of a colour number.
pub open spec fn rgba_of_number(number: u32) -> Rgba {
    Rgba {
        r: number2rgb_spec(number).0 * UNIT,
        g: number2rgb_spec(number).1 * UNIT,
        b: number2rgb_spec(number).2 * UNIT,
        a: 255,
    }
}

/// The views of a list of colours.
pub open spec fn color_views(colors: Seq<ColorRepresentation>) -> Seq<Rgba> {
    Seq::new(colors.len(), |i: int| colors[i]@)
}

/// A whole number of fixed-point steps cut down toward zero to a whole number.
pub open spec fn whole_part(v: int) -> int {
    if v >= 0 {
        v / (UNIT as int)
    } else {
        -((-v) / (UNIT as int))
    }
}

/// What `modify_a` makes of a colour.
pub open spec fn modified_a(c: Rgba, new_value: int) -> Rgba {
    c.with_alpha(clamp_spec(0, new_value, 255))
}

/// What `modify_rgb` makes of a colour.
pub open spec fn modified_rgb(c: Rgba, v: (int, int, int)) -> Rgba {
    c.with_rgb(
        (clamp_spec(0, v.0, RGB_MAX as int), clamp_spec(0, v.1, RGB_MAX as int), clamp_spec(
            0,
            v.2,
            RGB_MAX as int,
        )),
    )
}

/// What `modify_hsl` makes of a colour.
pub open spec fn modified_hsl(c: Rgba, v: (int, int, int)) -> Rgba {
    c.with_rgb(
        hsl2rgb_spec(
            clamp_spec(0, v.0, HUE_MAX as int),
            clamp_spec(0, v.1, PERCENT_MAX as int),
            clamp_spec(0, v.2, PERCENT_MAX as int),
        ),
    )
}

/// What `modify_cymk` makes of a colour.
pub open spec fn modified_cymk(c: Rgba, v: (int, int, int, int)) -> Rgba {
    c.with_rgb(
        cymk2rgb_spec(
            clamp_spec(0, v.0, PERCENT_MAX as int),
            clamp_spec(0, v.1, PERCENT_MAX as int),
            clamp_spec(0, v.2, PERCENT_MAX as int),
            clamp_spec(0, v.3, PERCENT_MAX as int),
        ),
    )
}

/// Whether `v` lies outside the interval from `min` to `max`, so that
/// clamping it rings the bell.
pub open spec fn rings(min: int, v: int, max: int) -> bool {
    v < min || v > max
}

/// Values that lie in their ranges are taken as they are by every edit, and
/// ring no bell.
pub proof fn lemma_edit_in_range(c: Rgba, rgb: (int, int, int), hsl: (int, int, int), cymk: (
    int,
    int,
    int,
    int,
), a: int)
    requires
        is_channel(rgb.0) && is_channel(rgb.1) && is_channel(rgb.2),
        0 <= hsl.0 <= HUE_MAX && 0 <= hsl.1 <= PERCENT_MAX && 0 <= hsl.2 <= PERCENT_MAX,
        0 <= cymk.0 <= PERCENT_MAX && 0 <= cymk.1 <= PERCENT_MAX,
        0 <= cymk.2 <= PERCENT_MAX && 0 <= cymk.3 <= PERCENT_MAX,
        0 <= a <= 255,
    ensures
        modified_rgb(c, rgb) == c.with_rgb(rgb),
        modified_hsl(c, hsl) == c.with_rgb(hsl2rgb_spec(hsl.0, hsl.1, hsl.2)),
        modified_cymk(c, cymk) == c.with_rgb(cymk2rgb_spec(cymk.0, cymk.1, cymk.2, cymk.3)),
        modified_a(c, a) == c.with_alpha(a),
        !rings(0, rgb.0, RGB_MAX as int) && !rings(0, rgb.1, RGB_MAX as int) && !rings(
            0,
            rgb.2,
            RGB_MAX as int,
        ),
        !rings(0, hsl.0, HUE_MAX as int) && !rings(0, hsl.1, PERCENT_MAX as int) && !rings(
            0,
            hsl.2,
            PERCENT_MAX as int,
        ),
        !rings(0, cymk.0, PERCENT_MAX as int) && !rings(0, cymk.1, PERCENT_MAX as int),
        !rings(0, cymk.2, PERCENT_MAX as int) && !rings(0, cymk.3, PERCENT_MAX as int),
        !rings(0, a, 255),
        modified_rgb(modified_rgb(c, rgb), rgb) == modified_rgb(c, rgb),
        modified_a(modified_a(c, a), a) == modified_a(c, a),
{
}

/// What `add_rgba` makes of a colour.
pub open spec fn added_rgba(c: Rgba, d: [i64; 4]) -> Rgba {
    modified_a(modified_rgb(c, (c.r + d[0], c.g + d[1], c.b + d[2])), c.a + whole_part(d[3] as int))
}

/// What `add_hsla` makes of a colour.
pub open spec fn added_hsla(c: Rgba, d: [i64; 4]) -> Rgba {
    let (h, s, l) = c.hsl();
    modified_a(modified_hsl(c, (h + d[0], s + d[1], l + d[2])), c.a + whole_part(d[3] as int))
}

/// What `add_cymka` makes of a colour.
pub open spec fn added_cymka(c: Rgba, d: [i64; 5]) -> Rgba {
    let (cy, ye, ma, k) = c.cymk();
    modified_a(
        modified_cymk(c, (cy + d[0], ye + d[1], ma + d[2], k + d[3])),
        c.a + whole_part(d[4] as int),
    )
}

/// A colour: red, green and blue as fixed-point channels from 0 to `RGB_MAX`
/// and alpha as a byte.
#[derive(Clone, Copy, Debug)]
pub struct ColorRepresentation {
    r: i64,
    g: i64,
    b: i64,
    a: u8,
}

impl View for ColorRepresentation {
    type V = Rgba;

    closed spec fn view(&self) -> Rgba {
        Rgba { r: self.r as int, g: self.g as int, b: self.b as int, a: self.a as int }
    }
}

/// The sum `a + b`, limited to the magnitudes that the edits care about: any
/// sum beyond them is clamped by the edit in the same way.
fn wide_sum(a: i64, b: i64) -> (s: i64)
    requires
        -4_000_000 <= a <= 4_000_000,
    ensures
        -8_000_000 <= a + b <= 8_000_000 ==> s == a + b,
        a + b < -8_000_000 ==> s == -8_000_000,
        a + b > 8_000_000 ==> s == 8_000_000,
{
    if b > 8_000_000 - a {
        8_000_000
    } else if b < -8_000_000 - a {
        -8_000_000
    } else {
        a + b
    }
}

impl ColorRepresentation {
    #[verifier::type_invariant]
    spec fn inv(self) -> bool {
        is_channel(self.r as int) && is_channel(self.g as int) && is_channel(self.b as int)
    }

    /// The colour with the given channels, each limited to its range.
    pub fn new(r: i64, g: i64, b: i64, a: u8) -> (c: ColorRepresentation)
        ensures
            c@ == (Rgba {
                r: clamp_spec(0, r as int, RGB_MAX as int),
                g: clamp_spec(0, g as int, RGB_MAX as int),
                b: clamp_spec(0, b as int, RGB_MAX as int),
                a: a as int,
            }),
            c@.wf(),
    {
        ColorRepresentation {
            r: crate::math::clamp(0, r, RGB_MAX),
            g: crate::math::clamp(0, g, RGB_MAX),
            b: crate::math::clamp(0, b, RGB_MAX),
            a,
        }
    }

    /// The opaque colour of a colour number.
    pub fn from_integer(number: ColorInt) -> (c: ColorRepresentation)
        ensures
            c@ == rgba_of_number(number),
            c@.wf(),
    {
        let (r, g, b) = number2rgb(number);
        ColorRepresentation {
            r: r as i64 * UNIT,
            g: g as i64 * UNIT,
            b: b as i64 * UNIT,
            a: 255,
        }
    }

    /// The colour number of the colour; alpha is left out.
    pub fn integer(&self) -> (n: ColorInt)
        ensures
            n == self@.integer(),
            self@.wf(),
    {
        proof {
            use_type_invariant(self);
        }
        rgb2number(self.r, self.g, self.b)
    }

    /// Hue, saturation and lightness of the colour.
    pub fn hsl(&self) -> (hsl: (i64, i64, i64))
        ensures
            (hsl.0 as int, hsl.1 as int, hsl.2 as int) == self@.hsl(),
            0 <= hsl.0 < crate::math::HUE_TURN,
            0 <= hsl.1 <= PERCENT_MAX,
            0 <= hsl.2 <= PERCENT_MAX,
            self@.wf(),
    {
        proof {
            use_type_invariant(self);
        }
        rgb2hsl(self.r, self.g, self.b)
    }

    /// Cyan, yellow, magenta and black ink of the colour.
    pub fn cymk(&self) -> (cymk: (i64, i64, i64, i64))
        ensures
            (cymk.0 as int, cymk.1 as int, cymk.2 as int, cymk.3 as int) == self@.cymk(),
            0 <= cymk.0 <= PERCENT_MAX,
            0 <= cymk.1 <= PERCENT_MAX,
            0 <= cymk.2 <= PERCENT_MAX,
            0 <= cymk.3 <= PERCENT_MAX,
            self@.wf(),
    {
        proof {
            use_type_invariant(self);
        }
        rgb2cymk(self.r, self.g, self.b)
    }

    /// Red, green and blue of the colour.
    pub fn rgb(&self) -> (rgb: (i64, i64, i64))
        ensures
            rgb.0 == self@.r,
            rgb.1 == self@.g,
            rgb.2 == self@.b,
            self@.wf(),
    {
        proof {
            use_type_invariant(self);
        }
        (self.r, self.g, self.b)
    }

    /// Alpha of the colour.
    pub fn a(&self) -> (a: u8)
        ensures
            a == self@.a,
            self@.wf(),
    {
        proof {
            use_type_invariant(self);
        }
        self.a
    }

    /// Sets alpha to `new_value`, limited to the range from 0 to 255. The
    /// result says whether the value had to be limited: the caller rings
    /// the bell if so.
    pub fn modify_a(&mut self, new_value: i32) -> (bell: bool)
        ensures
            final(self)@ == modified_a(old(self)@, new_value as int),
            bell == rings(0, new_value as int, 255),
            final(self)@.wf(),
    {
        proof {
            use_type_invariant(&*self);
        }
        let (value, bell) = clamp_with_bel(0, new_value as i64, 255);
        self.a = value as u8;
        bell
    }

    /// Sets red, green and blue, each limited to the range from 0 to
    /// `RGB_MAX`. The result says whether a value had to be limited.
    pub fn modify_rgb(&mut self, new_value: (i64, i64, i64)) -> (bell: bool)
        ensures
            final(self)@ == modified_rgb(
                old(self)@,
                (new_value.0 as int, new_value.1 as int, new_value.2 as int),
            ),
            bell == (rings(0, new_value.0 as int, RGB_MAX as int) || rings(
                0,
                new_value.1 as int,
                RGB_MAX as int,
            ) || rings(0, new_value.2 as int, RGB_MAX as int)),
            final(self)@.wf(),
    {
        proof {
            use_type_invariant(&*self);
        }
        let (r, bell_r) = clamp_with_bel(0, new_value.0, RGB_MAX);
        let (g, bell_g) = clamp_with_bel(0, new_value.1, RGB_MAX);
        let (b, bell_b) = clamp_with_bel(0, new_value.2, RGB_MAX);
        *self = ColorRepresentation { r, g, b, a: self.a };
        bell_r || bell_g || bell_b
    }

    /// Sets the colour from hue, saturation and lightness, each limited to
    /// its range: hue from 0 to `HUE_MAX`, the others from 0 to
    /// `PERCENT_MAX`. The result says whether a value had to be limited.
    pub fn modify_hsl(&mut self, new_value: (i64, i64, i64)) -> (bell: bool)
        ensures
            final(self)@ == modified_hsl(
                old(self)@,
                (new_value.0 as int, new_value.1 as int, new_value.2 as int),
            ),
            bell == (rings(0, new_value.0 as int, HUE_MAX as int) || rings(
                0,
                new_value.1 as int,
                PERCENT_MAX as int,
            ) || rings(0, new_value.2 as int, PERCENT_MAX as int)),
            final(self)@.wf(),
    {
        proof {
            use_type_invariant(&*self);
        }
        let (h, bell_h) = clamp_with_bel(0, new_value.0, HUE_MAX);
        let (s, bell_s) = clamp_with_bel(0, new_value.1, PERCENT_MAX);
        let (l, bell_l) = clamp_with_bel(0, new_value.2, PERCENT_MAX);
        let (r, g, b) = hsl2rgb(h, s, l);
        *self = ColorRepresentation { r, g, b, a: self.a };
        bell_h || bell_s || bell_l
    }

    /// Sets the colour from cyan, yellow, magenta and black ink, each
    /// limited to the range from 0 to `PERCENT_MAX`. The result says whether
    /// a value had to be limited.
    pub fn modify_cymk(&mut self, new_value: (i64, i64, i64, i64)) -> (bell: bool)
        ensures
            final(self)@ == modified_cymk(
                old(self)@,
                (new_value.0 as int, new_value.1 as int, new_value.2 as int, new_value.3 as int),
            ),
            bell == (rings(0, new_value.0 as int, PERCENT_MAX as int) || rings(
                0,
                new_value.1 as int,
                PERCENT_MAX as int,
            ) || rings(0, new_value.2 as int, PERCENT_MAX as int) || rings(
                0,
                new_value.3 as int,
                PERCENT_MAX as int,
            )),
            final(self)@.wf(),
    {
        proof {
            use_type_invariant(&*self);
        }
        let (c, bell_c) = clamp_with_bel(0, new_value.0, PERCENT_MAX);
        let (y, bell_y) = clamp_with_bel(0, new_value.1, PERCENT_MAX);
        let (m, bell_m) = clamp_with_bel(0, new_value.2, PERCENT_MAX);
        let (k, bell_k) = clamp_with_bel(0, new_value.3, PERCENT_MAX);
        let (r, g, b) = cymk2rgb(c, y, m, k);
        *self = ColorRepresentation { r, g, b, a: self.a };
        bell_c || bell_y || bell_m || bell_k
    }

    /// Adds the whole part of a fixed-point step to alpha, limited to the
    /// range of alpha.
    fn add_a(&mut self, delta: i64) -> (bell: bool)
        ensures
            final(self)@ == modified_a(old(self)@, old(self)@.a + whole_part(delta as int)),
            bell == rings(0, old(self)@.a + whole_part(delta as int), 255),
            final(self)@.wf(),
    {
        let step: i64 = if delta >= 0 {
            delta / UNIT
        } else if delta == i64::MIN {
            -(i64::MAX / UNIT)
        } else {
            -((-delta) / UNIT)
        };
        let capped: i64 = if step > 1000 {
            1000
        } else if step < -1000 {
            -1000
        } else {
            step
        };
        self.modify_a((self.a as i64 + capped) as i32)
    }

    /// Adds to red, green, blue and alpha; the sums are limited as
    /// `modify_rgb` and `modify_a` limit them, and the result says whether
    /// one of them had to be.
    pub fn add_rgba(&mut self, rgba: [i64; 4]) -> (bell: bool)
        ensures
            final(self)@ == added_rgba(old(self)@, rgba),
            bell == (rings(0, old(self)@.r + rgba[0], RGB_MAX as int) || rings(
                0,
                old(self)@.g + rgba[1],
                RGB_MAX as int,
            ) || rings(0, old(self)@.b + rgba[2], RGB_MAX as int) || rings(
                0,
                old(self)@.a + whole_part(rgba[3] as int),
                255,
            )),
            final(self)@.wf(),
    {
        proof {
            use_type_invariant(&*self);
        }
        let bell_rgb: bool = self.modify_rgb(
            (wide_sum(self.r, rgba[0]), wide_sum(self.g, rgba[1]), wide_sum(self.b, rgba[2])),
        );
        let bell_a: bool = self.add_a(rgba[3]);
        bell_rgb || bell_a
    }

    /// Adds to hue, saturation, lightness and alpha; the sums are limited
    /// as `modify_hsl` and `modify_a` limit them, and the result says
    /// whether one of them had to be.
    pub fn add_hsla(&mut self, hsla: [i64; 4]) -> (bell: bool)
        ensures
            final(self)@ == added_hsla(old(self)@, hsla),
            bell == (rings(0, old(self)@.hsl().0 + hsla[0], HUE_MAX as int) || rings(
                0,
                old(self)@.hsl().1 + hsla[1],
                PERCENT_MAX as int,
            ) || rings(0, old(self)@.hsl().2 + hsla[2], PERCENT_MAX as int) || rings(
                0,
                old(self)@.a + whole_part(hsla[3] as int),
                255,
            )),
            final(self)@.wf(),
    {
        let (h, s, l) = self.hsl();
        let bell_hsl: bool = self.modify_hsl(
            (wide_sum(h, hsla[0]), wide_sum(s, hsla[1]), wide_sum(l, hsla[2])),
        );
        let bell_a: bool = self.add_a(hsla[3]);
        bell_hsl || bell_a
    }

    /// Adds to the four inks and alpha; the sums are limited as
    /// `modify_cymk` and `modify_a` limit them, and the result says whether
    /// one of them had to be.
    pub fn add_cymka(&mut self, cymka: [i64; 5]) -> (bell: bool)
        ensures
            final(self)@ == added_cymka(old(self)@, cymka),
            bell == (rings(0, old(self)@.cymk().0 + cymka[0], PERCENT_MAX as int) || rings(
                0,
                old(self)@.cymk().1 + cymka[1],
                PERCENT_MAX as int,
            ) || rings(0, old(self)@.cymk().2 + cymka[2], PERCENT_MAX as int) || rings(
                0,
                old(self)@.cymk().3 + cymka[3],
                PERCENT_MAX as int,
            ) || rings(0, old(self)@.a + whole_part(cymka[4] as int), 255)),
            final(self)@.wf(),
    {
        let (c, y, m, k) = self.cymk();
        let bell_cymk: bool = self.modify_cymk(
            (
                wide_sum(c, cymka[0]),
                wide_sum(y, cymka[1]),
                wide_sum(m, cymka[2]),
                wide_sum(k, cymka[3]),
            ),
        );
        let bell_a: bool = self.add_a(cymka[4]);
        bell_cymk || bell_a
    }
}

/// The widest field that a template can ask for.
pub const MAX_WIDTH: usize = 255;

/// Hue, saturation and lightness with two digits after the point, parted by
/// commas; alpha follows as a whole number where it is asked for.
pub open spec fn tohsl_spec(c: Rgba, enable_alpha: bool) -> Seq<char> {
    let base = fixed2(c.hsl().0) + ", "@ + fixed2(c.hsl().1) + ", "@ + fixed2(c.hsl().2);
    if enable_alpha {
        base + ", "@ + decimal(c.a as nat)
    } else {
        base
    }
}

/// Red, green and blue as whole numbers parted by commas; alpha follows
/// where it is asked for.
pub open spec fn torgb_spec(c: Rgba, enable_alpha: bool) -> Seq<char> {
    let base = decimal(whole_part(c.r) as nat) + ", "@ + decimal(whole_part(c.g) as nat) + ", "@
        + decimal(whole_part(c.b) as nat);
    if enable_alpha {
        base + ", "@ + decimal(c.a as nat)
    } else {
        base
    }
}

/// Red, green and blue as two hexadecimal digits each; alpha follows where
/// it is asked for.
pub open spec fn tohex_spec(c: Rgba, enable_alpha: bool) -> Seq<char> {
    let base = hex_padded(whole_part(c.r) as nat, 2) + hex_padded(whole_part(c.g) as nat, 2)
        + hex_padded(whole_part(c.b) as nat, 2);
    if enable_alpha {
        base + hex_padded(c.a as nat, 2)
    } else {
        base
    }
}

/// The four inks with two digits after the point, parted by commas; alpha
/// follows as a whole number where it is asked for.
pub open spec fn tocymk_spec(c: Rgba, enable_alpha: bool) -> Seq<char> {
    let base = fixed2(c.cymk().0) + ", "@ + fixed2(c.cymk().1) + ", "@ + fixed2(c.cymk().2) + ", "@
        + fixed2(c.cymk().3);
    if enable_alpha {
        base + ", "@ + decimal(c.a as nat)
    } else {
        base
    }
}

/// Red, green and blue as whole numbers parted by semicolons.
pub open spec fn toansi_spec(c: Rgba) -> Seq<char> {
    decimal(whole_part(c.r) as nat) + ";"@ + decimal(whole_part(c.g) as nat) + ";"@ + decimal(
        whole_part(c.b) as nat,
    )
}

/// The number that a letter of a template stands for, if it stands for one:
/// `R`, `G`, `B` for the channels, `H`, `S`, `L` for hue, saturation and
/// lightness, `C`, `Y`, `M`, `K` for the inks, `A` for alpha, `D` for the
/// colour number and `E` for the entry of the 256-colour palette. Each is cut
/// down to a whole number.
pub open spec fn template_value(c: Rgba, ch: char) -> Option<nat> {
    if ch == 'R' {
        Some(whole_part(c.r) as nat)
    } else if ch == 'G' {
        Some(whole_part(c.g) as nat)
    } else if ch == 'B' {
        Some(whole_part(c.b) as nat)
    } else if ch == 'H' {
        Some(whole_part(c.hsl().0) as nat)
    } else if ch == 'S' {
        Some(whole_part(c.hsl().1) as nat)
    } else if ch == 'L' {
        Some(whole_part(c.hsl().2) as nat)
    } else if ch == 'C' {
        Some(whole_part(c.cymk().0) as nat)
    } else if ch == 'Y' {
        Some(whole_part(c.cymk().1) as nat)
    } else if ch == 'M' {
        Some(whole_part(c.cymk().2) as nat)
    } else if ch == 'K' {
        Some(whole_part(c.cymk().3) as nat)
    } else if ch == 'A' {
        Some(c.a as nat)
    } else if ch == 'D' {
        Some(c.integer() as nat)
    } else if ch == 'E' {
        Some(
            rgb2ansi256_spec(
                whole_part(c.r) as u8,
                whole_part(c.g) as u8,
                whole_part(c.b) as u8,
            ) as nat,
        )
    } else {
        None
    }
}

/// The field width after one more digit: the digits read so far as a number,
/// at most `MAX_WIDTH`. A negative width means that no digit was read yet.
pub open spec fn grown_width(width: int, digit: int) -> int {
    if width < 0 {
        digit
    } else if width * 10 + digit > MAX_WIDTH {
        MAX_WIDTH as int
    } else {
        width * 10 + digit
    }
}

/// A number as a template writes it: in decimal, or in hexadecimal with
/// zeros in front up to the width, which is 2 where the escape names none.
pub open spec fn template_number(v: nat, hex: bool, width: int) -> Seq<char> {
    if hex {
        hex_padded(
            v,
            if width < 0 {
                2
            } else {
                width as nat
            },
        )
    } else {
        decimal(v)
    }
}

/// What a template writes from its character `i` on. `escape` says whether
/// the characters before `i` opened an escape with `%` that is still open;
/// `hex` and `width` are what the open escape has set so far.
///
/// Outside an escape a character stands for itself. `%` opens an escape. In
/// an escape, a letter with a value writes the value and ends the escape;
/// digits form the width; `x` asks for hexadecimal; `n` and `t` write a line
/// break and a tab; any other character ends the escape and writes nothing.
pub open spec fn tofmt_from(c: Rgba, fmt: Seq<char>, i: int, escape: bool, hex: bool, width: int)
    -> Seq<char>
    decreases fmt.len() - i,
{
    if i < 0 || i >= fmt.len() {
        Seq::<char>::empty()
    } else {
        let ch = fmt[i];
        if ch == '%' {
            tofmt_from(c, fmt, i + 1, true, false, -1)
        } else if !escape {
            seq![ch] + tofmt_from(c, fmt, i + 1, false, hex, width)
        } else if template_value(c, ch) is Some {
            template_number(template_value(c, ch)->0, hex, width) + tofmt_from(
                c,
                fmt,
                i + 1,
                false,
                hex,
                width,
            )
        } else if is_digit(ch) {
            tofmt_from(c, fmt, i + 1, true, hex, grown_width(width, digit_value(ch)))
        } else if ch == 'x' {
            tofmt_from(c, fmt, i + 1, true, true, width)
        } else if ch == 'n' {
            seq!['\n'] + tofmt_from(c, fmt, i + 1, false, hex, width)
        } else if ch == 't' {
            seq!['\t'] + tofmt_from(c, fmt, i + 1, false, hex, width)
        } else {
            tofmt_from(c, fmt, i + 1, false, hex, width)
        }
    }
}

/// What a template writes for a colour.
pub open spec fn tofmt_spec(c: Rgba, fmt: Seq<char>) -> Seq<char> {
    tofmt_from(c, fmt, 0, false, false, -1)
}

/// A colour in an output encoding, as bare numbers.
pub open spec fn output_clr_spec(c: Rgba, output_type: OutputModel, enable_alpha: bool) -> Seq<
    char,
> {
    match output_type {
        OutputModel::HSL => tohsl_spec(c, enable_alpha),
        OutputModel::ANSI => toansi_spec(c),
        OutputModel::RGB => torgb_spec(c, enable_alpha),
        OutputModel::HEX => tohex_spec(c, enable_alpha),
        OutputModel::CYMK => tocymk_spec(c, enable_alpha),
        OutputModel::CUSTOM(fmt) => tofmt_spec(c, fmt),
        OutputModel::ALL => tohsl_spec(c, enable_alpha) + "\n"@ + torgb_spec(c, enable_alpha)
            + "\n"@ + tohex_spec(c, enable_alpha) + "\n"@ + toansi_spec(c),
    }
}

/// A colour in hue, saturation and lightness, as a text that `from_color`
/// reads.
pub open spec fn formatted_hsl(c: Rgba, enable_alpha: bool) -> Seq<char> {
    if enable_alpha {
        "hsla("@ + tohsl_spec(c, true) + ")"@
    } else {
        "hsl("@ + tohsl_spec(c, false) + ")"@
    }
}

/// A colour in red, green and blue, as a text that `from_color` reads.
pub open spec fn formatted_rgb(c: Rgba, enable_alpha: bool) -> Seq<char> {
    if enable_alpha {
        "rgba("@ + torgb_spec(c, true) + ")"@
    } else {
        "rgb("@ + torgb_spec(c, false) + ")"@
    }
}

/// A colour in the four inks, named as an ink colour.
pub open spec fn formatted_cymk(c: Rgba, enable_alpha: bool) -> Seq<char> {
    if enable_alpha {
        "cymka("@ + tocymk_spec(c, true) + ")"@
    } else {
        "cymk("@ + tocymk_spec(c, false) + ")"@
    }
}

/// A colour in hexadecimal with `#` in front.
pub open spec fn formatted_hex(c: Rgba, enable_alpha: bool) -> Seq<char> {
    "#"@ + tohex_spec(c, enable_alpha)
}

/// A colour as the written-out escape sequence that sets the foreground of
/// a terminal.
pub open spec fn formatted_ansi(c: Rgba) -> Seq<char> {
    "\\x1b[38;2;"@ + toansi_spec(c) + "m"@
}

/// A colour in an output encoding, in the form that names the encoding.
pub open spec fn formatted_output_clr_spec(c: Rgba, output_type: OutputModel, enable_alpha: bool)
    -> Seq<char> {
    match output_type {
        OutputModel::CUSTOM(fmt) => tofmt_spec(c, fmt),
        OutputModel::ALL => formatted_hsl(c, enable_alpha) + "\n"@ + formatted_rgb(c, enable_alpha)
            + "\n"@ + formatted_hex(c, enable_alpha) + "\n"@ + formatted_ansi(c),
        OutputModel::HSL => formatted_hsl(c, enable_alpha),
        OutputModel::CYMK => formatted_cymk(c, enable_alpha),
        OutputModel::HEX => formatted_hex(c, enable_alpha),
        OutputModel::ANSI => formatted_ansi(c),
        OutputModel::RGB => formatted_rgb(c, enable_alpha),
    }
}

proof fn lemma_empty_left(s: Seq<char>)
    ensures
        Seq::<char>::empty() + s == s,
{
    assert(Seq::<char>::empty() + s =~= s);
}

impl ColorRepresentation {
    /// Hue, saturation and lightness with two digits after the point.
    pub fn tohsl(&self, enable_alpha: bool) -> (out: String)
        ensures
            out@ == tohsl_spec(self@, enable_alpha),
    {
        let (h, s, l) = self.hsl();
        let mut out: String = String::new();
        proof {
            lemma_empty_left(fixed2(h as int));
        }
        push_fixed2(&mut out, h);
        push_str(&mut out, ", ");
        push_fixed2(&mut out, s);
        push_str(&mut out, ", ");
        push_fixed2(&mut out, l);
        if enable_alpha {
            push_str(&mut out, ", ");
            push_decimal(&mut out, self.a as u64);
        }
        out
    }

    /// Red, green and blue as whole numbers.
    pub fn torgb(&self, enable_alpha: bool) -> (out: String)
        ensures
            out@ == torgb_spec(self@, enable_alpha),
    {
        let (r, g, b) = self.rgb();
        let mut out: String = String::new();
        proof {
            lemma_empty_left(decimal(whole_part(r as int) as nat));
        }
        push_decimal(&mut out, (r / UNIT) as u64);
        push_str(&mut out, ", ");
        push_decimal(&mut out, (g / UNIT) as u64);
        push_str(&mut out, ", ");
        push_decimal(&mut out, (b / UNIT) as u64);
        if enable_alpha {
            push_str(&mut out, ", ");
            push_decimal(&mut out, self.a as u64);
        }
        out
    }

    /// Red, green and blue as two hexadecimal digits each.
    pub fn tohex(&self, enable_alpha: bool) -> (out: String)
        ensures
            out@ == tohex_spec(self@, enable_alpha),
    {
        let (r, g, b) = self.rgb();
        let mut out: String = String::new();
        proof {
            lemma_empty_left(hex_padded(whole_part(r as int) as nat, 2));
        }
        push_hex_padded(&mut out, (r / UNIT) as u64, 2);
        push_hex_padded(&mut out, (g / UNIT) as u64, 2);
        push_hex_padded(&mut out, (b / UNIT) as u64, 2);
        if enable_alpha {
            push_hex_padded(&mut out, self.a as u64, 2);
        }
        out
    }

    /// The four inks with two digits after the point.
    pub fn tocymk(&self, enable_alpha: bool) -> (out: String)
        ensures
            out@ == tocymk_spec(self@, enable_alpha),
    {
        let (c, y, m, k) = self.cymk();
        let mut out: String = String::new();
        proof {
            lemma_empty_left(fixed2(c as int));
        }
        push_fixed2(&mut out, c);
        push_str(&mut out, ", ");
        push_fixed2(&mut out, y);
        push_str(&mut out, ", ");
        push_fixed2(&mut out, m);
        push_str(&mut out, ", ");
        push_fixed2(&mut out, k);
        if enable_alpha {
            push_str(&mut out, ", ");
            push_decimal(&mut out, self.a as u64);
        }
        out
    }

    /// Red, green and blue as whole numbers parted by semicolons, as a
    /// terminal colour sequence lists them. Alpha has no place in it.
    pub fn toansi(&self, _enable_alpha: bool) -> (out: String)
        ensures
            out@ == toansi_spec(self@),
    {
        let (r, g, b) = self.rgb();
        let mut out: String = String::new();
        proof {
            lemma_empty_left(decimal(whole_part(r as int) as nat));
        }
        push_decimal(&mut out, (r / UNIT) as u64);
        push_str(&mut out, ";");
        push_decimal(&mut out, (g / UNIT) as u64);
        push_str(&mut out, ";");
        push_decimal(&mut out, (b / UNIT) as u64);
        out
    }

    /// The number that a letter of a template stands for.
    fn value_of_letter(&self, ch: char) -> (v: Option<u64>)
        ensures
            match v {
                Some(n) => template_value(self@, ch) == Some(n as nat),
                None => template_value(self@, ch) is None,
            },
    {
        let (r, g, b) = self.rgb();
        if ch == 'R' {
            Some((r / UNIT) as u64)
        } else if ch == 'G' {
            Some((g / UNIT) as u64)
        } else if ch == 'B' {
            Some((b / UNIT) as u64)
        } else if ch == 'H' {
            Some((self.hsl().0 / UNIT) as u64)
        } else if ch == 'S' {
            Some((self.hsl().1 / UNIT) as u64)
        } else if ch == 'L' {
            Some((self.hsl().2 / UNIT) as u64)
        } else if ch == 'C' {
            Some((self.cymk().0 / UNIT) as u64)
        } else if ch == 'Y' {
            Some((self.cymk().1 / UNIT) as u64)
        } else if ch == 'M' {
            Some((self.cymk().2 / UNIT) as u64)
        } else if ch == 'K' {
            Some((self.cymk().3 / UNIT) as u64)
        } else if ch == 'A' {
            Some(self.a() as u64)
        } else if ch == 'D' {
            Some(self.integer() as u64)
        } else if ch == 'E' {
            Some(rgb2ansi256((r / UNIT) as u8, (g / UNIT) as u8, (b / UNIT) as u8) as u64)
        } else {
            None
        }
    }

    /// Writes the colour as the template `fmt` says.
    pub fn tofmt(&self, fmt: &str) -> (out: String)
        ensures
            out@ == tofmt_spec(self@, fmt@),
    {
        let chars: Vec<char> = to_chars(fmt);
        let mut out: String = String::new();
        let mut escape: bool = false;
        let mut hex: bool = false;
        let mut width: i64 = -1;
        let mut i: usize = 0;
        proof {
            lemma_empty_left(tofmt_spec(self@, fmt@));
        }
        while i < chars.len()
            invariant
                i <= chars.len(),
                chars@ == fmt@,
                -1 <= width <= MAX_WIDTH,
                out@ + tofmt_from(self@, fmt@, i as int, escape, hex, width as int) == tofmt_spec(
                    self@,
                    fmt@,
                ),
            decreases chars.len() - i,
        {
            let ch: char = chars[i];
            let ghost before = out@;
            let ghost rest_before = tofmt_from(self@, fmt@, i as int, escape, hex, width as int);
            if ch == '%' {
                escape = true;
                hex = false;
                width = -1;
            } else if !escape {
                out.push(ch);
                proof {
                    let rest = tofmt_from(self@, fmt@, i + 1, false, hex, width as int);
                    assert(before.push(ch) + rest == before + (seq![ch] + rest));
                }
            } else {
                match self.value_of_letter(ch) {
                    Some(v) => {
                        if hex {
                            push_hex_padded(
                                &mut out,
                                v,
                                if width < 0 {
                                    2
                                } else {
                                    width as usize
                                },
                            );
                        } else {
                            push_decimal(&mut out, v);
                        }
                        escape = false;
                        proof {
                            let rest = tofmt_from(self@, fmt@, i + 1, false, hex, width as int);
                            let number = template_number(v as nat, hex, width as int);
                            assert(before + number + rest == before + (number + rest));
                        }
                    },
                    None => {
                        if ch >= '0' && ch <= '9' {
                            let digit: i64 = (ch as u32 - 48) as i64;
                            width = if width < 0 {
                                digit
                            } else if width * 10 + digit > MAX_WIDTH as i64 {
                                MAX_WIDTH as i64
                            } else {
                                width * 10 + digit
                            };
                        } else if ch == 'x' {
                            hex = true;
                        } else if ch == 'n' {
                            out.push('\n');
                            escape = false;
                            proof {
                                let rest = tofmt_from(self@, fmt@, i + 1, false, hex, width as int);
                                assert(before.push('\n') + rest == before + (seq!['\n'] + rest));
                            }
                        } else if ch == 't' {
                            out.push('\t');
                            escape = false;
                            proof {
                                let rest = tofmt_from(self@, fmt@, i + 1, false, hex, width as int);
                                assert(before.push('\t') + rest == before + (seq!['\t'] + rest));
                            }
                        } else {
                            escape = false;
                        }
                    },
                }
            }
            i += 1;
        }
        proof {
            assert(out@ + Seq::<char>::empty() == out@);
        }
        out
    }

    /// The colour in an output encoding, as bare numbers.
    pub fn get_output_clr(&self, output_type: &OutputType, enable_alpha: bool) -> (out: String)
        ensures
            out@ == output_clr_spec(self@, output_type@, enable_alpha),
    {
        match output_type {
            OutputType::HSL => self.tohsl(enable_alpha),
            OutputType::ANSI => self.toansi(false),
            OutputType::RGB => self.torgb(enable_alpha),
            OutputType::HEX => self.tohex(enable_alpha),
            OutputType::CYMK => self.tocymk(enable_alpha),
            OutputType::CUSTOM(fmt) => self.tofmt(fmt.as_str()),
            OutputType::ALL => {
                let mut out: String = self.tohsl(enable_alpha);
                push_str(&mut out, "\n");
                push_str(&mut out, self.torgb(enable_alpha).as_str());
                push_str(&mut out, "\n");
                push_str(&mut out, self.tohex(enable_alpha).as_str());
                push_str(&mut out, "\n");
                push_str(&mut out, self.toansi(false).as_str());
                out
            },
        }
    }

    fn wrapped(prefix: &str, body: String, suffix: &str) -> (out: String)
        ensures
            out@ == prefix@ + body@ + suffix@,
    {
        let mut out: String = String::new();
        proof {
            lemma_empty_left(prefix@);
        }
        push_str(&mut out, prefix);
        push_str(&mut out, body.as_str());
        push_str(&mut out, suffix);
        out
    }

    fn formatted_one(&self, which: u8, enable_alpha: bool) -> (out: String)
        requires
            which < 5,
        ensures
            which == 0 ==> out@ == formatted_hsl(self@, enable_alpha),
            which == 1 ==> out@ == formatted_rgb(self@, enable_alpha),
            which == 2 ==> out@ == formatted_hex(self@, enable_alpha),
            which == 3 ==> out@ == formatted_ansi(self@),
            which == 4 ==> out@ == formatted_cymk(self@, enable_alpha),
    {
        if which == 0 {
            if enable_alpha {
                Self::wrapped("hsla(", self.tohsl(true), ")")
            } else {
                Self::wrapped("hsl(", self.tohsl(false), ")")
            }
        } else if which == 1 {
            if enable_alpha {
                Self::wrapped("rgba(", self.torgb(true), ")")
            } else {
                Self::wrapped("rgb(", self.torgb(false), ")")
            }
        } else if which == 2 {
            let mut out: String = String::new();
            proof {
                lemma_empty_left("#"@);
            }
            push_str(&mut out, "#");
            push_str(&mut out, self.tohex(enable_alpha).as_str());
            out
        } else if which == 3 {
            Self::wrapped("\\x1b[38;2;", self.toansi(false), "m")
        } else {
            if enable_alpha {
                Self::wrapped("cymka(", self.tocymk(true), ")")
            } else {
                Self::wrapped("cymk(", self.tocymk(false), ")")
            }
        }
    }

    /// The colour in an output encoding, in the form that names the
    /// encoding.
    pub fn get_formatted_output_clr(&self, output_type: &OutputType, enable_alpha: bool) -> (out:
        String)
        ensures
            out@ == formatted_output_clr_spec(self@, output_type@, enable_alpha),
    {
        match output_type {
            OutputType::CUSTOM(fmt) => self.tofmt(fmt.as_str()),
            OutputType::ALL => {
                let mut out: String = self.formatted_one(0, enable_alpha);
                push_str(&mut out, "\n");
                push_str(&mut out, self.formatted_one(1, enable_alpha).as_str());
                push_str(&mut out, "\n");
                push_str(&mut out, self.formatted_one(2, enable_alpha).as_str());
                push_str(&mut out, "\n");
                push_str(&mut out, self.formatted_one(3, enable_alpha).as_str());
                out
            },
            OutputType::HSL => self.formatted_one(0, enable_alpha),
            OutputType::CYMK => self.formatted_one(4, enable_alpha),
            OutputType::HEX => self.formatted_one(2, enable_alpha),
            OutputType::ANSI => self.formatted_one(3, enable_alpha),
            OutputType::RGB => self.formatted_one(1, enable_alpha),
        }
    }

    /// The colour as eight hexadecimal digits: red, green, blue and alpha.
    pub fn to_string(&self) -> (out: String)
        ensures
            out@ == tohex_spec(self@, true),
    {
        self.tohex(true)
    }
}

/// Field `i` of a list of fields, read as a number after its white space is
/// cut off.
pub open spec fn number_field(parts: Seq<Seq<char>>, i: int) -> Result<int, ParseError> {
    if i < 0 || i >= parts.len() {
        Err(ParseError::MissingField)
    } else {
        match parse_number_spec(trim_spec(parts[i])) {
            Some(v) => Ok(v as int),
            None => Err(ParseError::InvalidNumber),
        }
    }
}

/// Field `i` of a list of fields, read as an alpha after its white space is
/// cut off.
pub open spec fn alpha_field(parts: Seq<Seq<char>>, i: int) -> Result<int, ParseError> {
    if i < 0 || i >= parts.len() {
        Err(ParseError::MissingField)
    } else {
        match parse_u8_spec(trim_spec(parts[i])) {
            Some(v) => Ok(v as int),
            None => Err(ParseError::InvalidNumber),
        }
    }
}

/// The first `count` fields read as numbers, or the error of the first field
/// that is missing or no number.
pub open spec fn number_fields(parts: Seq<Seq<char>>, count: nat) -> Result<Seq<int>, ParseError>
    decreases count,
{
    if count == 0 {
        Ok(Seq::<int>::empty())
    } else {
        match number_fields(parts, (count - 1) as nat) {
            Err(e) => Err(e),
            Ok(before) => match number_field(parts, count - 1) {
                Err(e) => Err(e),
                Ok(v) => Ok(before.push(v)),
            },
        }
    }
}

/// What the colour models make of the numbers of a text.
pub enum ColorForm {
    /// Red, green and blue.
    Rgb,
    /// Hue, saturation and lightness.
    Hsl,
    /// Cyan, yellow, magenta and black ink.
    Cymk,
}

/// How many numbers a colour model takes.
pub open spec fn form_arity(form: ColorForm) -> nat {
    match form {
        ColorForm::Cymk => 4,
        _ => 3,
    }
}

/// Red, green and blue of the numbers of a colour model. Each number is
/// limited to its range first: channels from 0 to `RGB_MAX`, percentages
/// from 0 to `PERCENT_MAX`; a hue may be any number.
pub open spec fn rgb_of_numbers(form: ColorForm, v: Seq<int>) -> (int, int, int) {
    match form {
        ColorForm::Rgb => (
            clamp_spec(0, v[0], RGB_MAX as int),
            clamp_spec(0, v[1], RGB_MAX as int),
            clamp_spec(0, v[2], RGB_MAX as int),
        ),
        ColorForm::Hsl => hsl2rgb_spec(
            v[0],
            clamp_spec(0, v[1], PERCENT_MAX as int),
            clamp_spec(0, v[2], PERCENT_MAX as int),
        ),
        ColorForm::Cymk => cymk2rgb_spec(
            clamp_spec(0, v[0], PERCENT_MAX as int),
            clamp_spec(0, v[1], PERCENT_MAX as int),
            clamp_spec(0, v[2], PERCENT_MAX as int),
            clamp_spec(0, v[3], PERCENT_MAX as int),
        ),
    }
}

/// The colour of a list of fields: the numbers of the colour model, and
/// after them alpha where the text has one. Without alpha the colour is
/// opaque.
pub open spec fn color_of_fields(form: ColorForm, parts: Seq<Seq<char>>, with_alpha: bool)
    -> Result<Rgba, ParseError> {
    match number_fields(parts, form_arity(form)) {
        Err(e) => Err(e),
        Ok(v) => {
            let alpha = if with_alpha {
                alpha_field(parts, form_arity(form) as int)
            } else {
                Ok(255)
            };
            match alpha {
                Err(e) => Err(e),
                Ok(a) => {
                    let rgb = rgb_of_numbers(form, v);
                    Ok(Rgba { r: rgb.0, g: rgb.1, b: rgb.2, a })
                },
            }
        },
    }
}

/// The fields between the bracket that ends the first `skip` characters and
/// the last character of the text, which is not read.
pub open spec fn bracket_fields(s: Seq<char>, skip: int) -> Seq<Seq<char>> {
    split_spec(s.subrange(skip, s.len() - 1), ',')
}

/// The colour of a text that names its colour model and lists its numbers
/// in brackets. The first `skip` characters are the name and the opening
/// bracket.
pub open spec fn color_of_call(form: ColorForm, s: Seq<char>, skip: int, with_alpha: bool)
    -> Result<Rgba, ParseError> {
    if s.len() < skip + 1 {
        Err(ParseError::Malformed)
    } else {
        color_of_fields(form, bracket_fields(s, skip), with_alpha)
    }
}

/// The square of the hexadecimal digit at `at`, which is what one digit of a
/// short hexadecimal colour stands for.
pub open spec fn hex_square(s: Seq<char>, at: int) -> int {
    hex_digit_value(s[at]) * hex_digit_value(s[at])
}

/// The colour of a text that consists of `#` and 3, 4, 6 or 8 hexadecimal
/// digits: one digit or two for each of red, green and blue, and for alpha
/// where there is a fourth.
pub open spec fn color_of_hex(s: Seq<char>) -> Result<Rgba, ParseError> {
    if !(forall|i: int| 1 <= i < s.len() ==> is_hex_digit(#[trigger] s[i])) {
        Err(ParseError::InvalidHex)
    } else if s.len() == 4 {
        Ok(
            Rgba {
                r: hex_square(s, 1) * UNIT,
                g: hex_square(s, 2) * UNIT,
                b: hex_square(s, 3) * UNIT,
                a: 255,
            },
        )
    } else if s.len() == 5 {
        Ok(
            Rgba {
                r: hex_square(s, 1) * UNIT,
                g: hex_square(s, 2) * UNIT,
                b: hex_square(s, 3) * UNIT,
                a: hex_square(s, 4),
            },
        )
    } else if s.len() == 7 {
        Ok(
            Rgba {
                r: hex_pair(s, 1) * UNIT,
                g: hex_pair(s, 3) * UNIT,
                b: hex_pair(s, 5) * UNIT,
                a: 255,
            },
        )
    } else {
        Ok(
            Rgba {
                r: hex_pair(s, 1) * UNIT,
                g: hex_pair(s, 3) * UNIT,
                b: hex_pair(s, 5) * UNIT,
                a: hex_pair(s, 7) as int,
            },
        )
    }
}

/// Whether a text has the shape of a hexadecimal colour: `#` in front and
/// 4, 5, 7 or 9 characters in all.
pub open spec fn is_hex_shape(s: Seq<char>) -> bool {
    s.len() > 0 && s[0] == '#' && (s.len() == 4 || s.len() == 5 || s.len() == 7 || s.len() == 9)
}

/// The colour of a colour name under a naming standard.
pub open spec fn color_of_name(s: Seq<char>, standard: ColorNameStandard, term: [[u8; 3]; 16])
    -> Result<Rgba, ParseError> {
    match find_color(standard, term, s) {
        Some(rgb) => Ok(Rgba { r: rgb[0] * UNIT, g: rgb[1] * UNIT, b: rgb[2] * UNIT, a: 255 }),
        None => Err(ParseError::UnknownName),
    }
}

/// The colour that a text stands for. The forms, of which the first that
/// fits is taken:
///
/// - the written-out escape sequence that sets the foreground of a
///   terminal: the characters `\x1b`, six more characters, three numbers
///   parted by semicolons, and a last character;
/// - three numbers parted by semicolons;
/// - `rgba(`, `rgb(`, `hsla(`, `hsl(`, `cymk(` or `cmyk(`, the numbers
///   parted by commas, and a last character;
/// - `#` and hexadecimal digits;
/// - a colour name.
pub open spec fn parse_color(s: Seq<char>, standard: ColorNameStandard, term: [[u8; 3]; 16])
    -> Result<Rgba, ParseError> {
    if starts_with_spec(s, "\\x1b"@) {
        if s.len() < 11 {
            Err(ParseError::Malformed)
        } else {
            color_of_fields(ColorForm::Rgb, split_spec(s.subrange(10, s.len() - 1), ';'), false)
        }
    } else if contains_char(s, ';') {
        color_of_fields(ColorForm::Rgb, split_spec(s, ';'), false)
    } else if starts_with_spec(s, "rgba"@) {
        color_of_call(ColorForm::Rgb, s, 5, true)
    } else if starts_with_spec(s, "rgb"@) {
        color_of_call(ColorForm::Rgb, s, 4, false)
    } else if starts_with_spec(s, "hsla"@) {
        color_of_call(ColorForm::Hsl, s, 5, true)
    } else if starts_with_spec(s, "hsl"@) {
        color_of_call(ColorForm::Hsl, s, 4, false)
    } else if starts_with_spec(s, "cymk"@) || starts_with_spec(s, "cmyk"@) {
        color_of_call(ColorForm::Cymk, s, 5, false)
    } else if is_hex_shape(s) {
        color_of_hex(s)
    } else {
        color_of_name(s, standard, term)
    }
}

fn square_of_digit(d: u8) -> (r: u8)
    requires
        d < 16,
    ensures
        r == d * d,
        r <= 225,
{
    assert(d * d <= 225) by (nonlinear_arith)
        requires
            d < 16,
    ;
    d * d
}

fn read_number_field(parts: &Vec<Vec<char>>, i: usize) -> (r: Result<i64, ParseError>)
    ensures
        match r {
            Ok(v) => number_field(views(parts@), i as int) == Ok::<int, ParseError>(v as int),
            Err(e) => number_field(views(parts@), i as int) == Err::<int, ParseError>(e),
        },
{
    if i >= parts.len() {
        return Err(ParseError::MissingField);
    }
    let field: Vec<char> = trim(&parts[i]);
    match parse_decimal(&field) {
        Some(v) => Ok(v),
        None => Err(ParseError::InvalidNumber),
    }
}

fn read_alpha_field(parts: &Vec<Vec<char>>, i: usize) -> (r: Result<u8, ParseError>)
    ensures
        match r {
            Ok(v) => alpha_field(views(parts@), i as int) == Ok::<int, ParseError>(v as int),
            Err(e) => alpha_field(views(parts@), i as int) == Err::<int, ParseError>(e),
        },
{
    if i >= parts.len() {
        return Err(ParseError::MissingField);
    }
    let field: Vec<char> = trim(&parts[i]);
    match parse_u8(&field) {
        Some(v) => Ok(v),
        None => Err(ParseError::InvalidNumber),
    }
}

fn read_number_fields(parts: &Vec<Vec<char>>, count: usize) -> (r: Result<Vec<i64>, ParseError>)
    requires
        count <= 4,
    ensures
        match r {
            Ok(v) => v.len() == count && number_fields(views(parts@), count as nat) == Ok::<
                Seq<int>,
                ParseError,
            >(Seq::new(count as nat, |j: int| v@[j] as int)),
            Err(e) => number_fields(views(parts@), count as nat) == Err::<Seq<int>, ParseError>(e),
        },
{
    let mut values: Vec<i64> = Vec::new();
    let mut i: usize = 0;
    proof {
        assert(Seq::new(0, |j: int| values@[j] as int) =~= Seq::<int>::empty());
    }
    while i < count
        invariant
            i <= count <= 4,
            values.len() == i,
            number_fields(views(parts@), i as nat) == Ok::<Seq<int>, ParseError>(
                Seq::new(i as nat, |j: int| values@[j] as int),
            ),
        decreases count - i,
    {
        let ghost before = Seq::new(i as nat, |j: int| values@[j] as int);
        match read_number_field(parts, i) {
            Ok(v) => {
                values.push(v);
                proof {
                    assert(Seq::new((i + 1) as nat, |j: int| values@[j] as int) =~= before.push(
                        v as int,
                    ));
                }
            },
            Err(e) => {
                proof {
                    lemma_number_fields_error(views(parts@), (i + 1) as nat, count as nat);
                }
                return Err(e);
            },
        }
        i += 1;
    }
    Ok(values)
}

/// Once the first fields give an error, any longer run of fields gives the
/// same error.
proof fn lemma_number_fields_error(parts: Seq<Seq<char>>, short: nat, long: nat)
    requires
        short <= long,
        number_fields(parts, short) is Err,
    ensures
        number_fields(parts, long) == number_fields(parts, short),
    decreases long,
{
    if short < long {
        lemma_number_fields_error(parts, short, (long - 1) as nat);
    }
}

impl ColorRepresentation {
    fn from_fields(form: ColorForm, parts: &Vec<Vec<char>>, with_alpha: bool) -> (r: Result<
        ColorRepresentation,
        ParseError,
    >)
        ensures
            match r {
                Ok(c) => color_of_fields(form, views(parts@), with_alpha) == Ok::<Rgba, ParseError>(
                    c@,
                ) && c@.wf(),
                Err(e) => color_of_fields(form, views(parts@), with_alpha) == Err::<
                    Rgba,
                    ParseError,
                >(e),
            },
    {
        let count: usize = match form {
            ColorForm::Cymk => 4,
            _ => 3,
        };
        let v: Vec<i64> = match read_number_fields(parts, count) {
            Ok(v) => v,
            Err(e) => {
                return Err(e);
            },
        };
        let a: u8 = if with_alpha {
            match read_alpha_field(parts, count) {
                Ok(a) => a,
                Err(e) => {
                    return Err(e);
                },
            }
        } else {
            255
        };
        let rgb: (i64, i64, i64) = match form {
            ColorForm::Rgb => (
                crate::math::clamp(0, v[0], RGB_MAX),
                crate::math::clamp(0, v[1], RGB_MAX),
                crate::math::clamp(0, v[2], RGB_MAX),
            ),
            ColorForm::Hsl => hsl2rgb(
                v[0],
                crate::math::clamp(0, v[1], PERCENT_MAX),
                crate::math::clamp(0, v[2], PERCENT_MAX),
            ),
            ColorForm::Cymk => cymk2rgb(
                crate::math::clamp(0, v[0], PERCENT_MAX),
                crate::math::clamp(0, v[1], PERCENT_MAX),
                crate::math::clamp(0, v[2], PERCENT_MAX),
                crate::math::clamp(0, v[3], PERCENT_MAX),
            ),
        };
        Ok(ColorRepresentation { r: rgb.0, g: rgb.1, b: rgb.2, a })
    }

    fn from_call(form: ColorForm, s: &Vec<char>, skip: usize, with_alpha: bool) -> (r: Result<
        ColorRepresentation,
        ParseError,
    >)
        requires
            skip <= 5,
        ensures
            match r {
                Ok(c) => color_of_call(form, s@, skip as int, with_alpha) == Ok::<
                    Rgba,
                    ParseError,
                >(c@) && c@.wf(),
                Err(e) => color_of_call(form, s@, skip as int, with_alpha) == Err::<
                    Rgba,
                    ParseError,
                >(e),
            },
    {
        if s.len() < skip + 1 {
            return Err(ParseError::Malformed);
        }
        let inner: Vec<char> = slice_chars(s, skip, s.len() - 1);
        let parts: Vec<Vec<char>> = split(&inner, ',');
        Self::from_fields(form, &parts, with_alpha)
    }

    fn from_hex(s: &Vec<char>) -> (r: Result<ColorRepresentation, ParseError>)
        requires
            is_hex_shape(s@),
        ensures
            match r {
                Ok(c) => color_of_hex(s@) == Ok::<Rgba, ParseError>(c@) && c@.wf(),
                Err(e) => color_of_hex(s@) == Err::<Rgba, ParseError>(e),
            },
    {
        let n: usize = s.len();
        let mut digits: Vec<u8> = Vec::new();
        let mut i: usize = 1;
        while i < n
            invariant
                1 <= i <= n,
                n == s.len(),
                digits.len() == i - 1,
                forall|j: int| 1 <= j < i ==> is_hex_digit(#[trigger] s@[j]),
                forall|j: int| 1 <= j < i ==> digits@[j - 1] == hex_digit_value(s@[j]),
                forall|j: int| 0 <= j < i - 1 ==> digits@[j] < 16,
            decreases n - i,
        {
            match hex_digit(s[i]) {
                Some(d) => {
                    digits.push(d);
                },
                None => {
                    return Err(ParseError::InvalidHex);
                },
            }
            i += 1;
        }
        if n == 4 || n == 5 {
            let a: u8 = if n == 5 {
                square_of_digit(digits[3])
            } else {
                255
            };
            Ok(
                ColorRepresentation {
                    r: square_of_digit(digits[0]) as i64 * UNIT,
                    g: square_of_digit(digits[1]) as i64 * UNIT,
                    b: square_of_digit(digits[2]) as i64 * UNIT,
                    a,
                },
            )
        } else {
            let a: u8 = if n == 9 {
                digits[6] * 16 + digits[7]
            } else {
                255
            };
            Ok(
                ColorRepresentation {
                    r: (digits[0] * 16 + digits[1]) as i64 * UNIT,
                    g: (digits[2] * 16 + digits[3]) as i64 * UNIT,
                    b: (digits[4] * 16 + digits[5]) as i64 * UNIT,
                    a,
                },
            )
        }
    }

    /// Reads a colour from a text. `clr_name_standard` resolves colour
    /// names, and `term` is the palette of the terminal, which only the
    /// standard `MyTerm` reads.
    pub fn from_color(clr: &str, clr_name_standard: &ColorNameStandard, term: &[[u8; 3]; 16])
        -> (r: Result<ColorRepresentation, ParseError>)
        ensures
            match r {
                Ok(c) => parse_color(clr@, *clr_name_standard, *term) == Ok::<Rgba, ParseError>(c@)
                    && c@.wf(),
                Err(e) => parse_color(clr@, *clr_name_standard, *term) == Err::<Rgba, ParseError>(
                    e,
                ),
            },
    {
        let s: Vec<char> = to_chars(clr);
        if starts_with(&s, "\\x1b") {
            if s.len() < 11 {
                return Err(ParseError::Malformed);
            }
            let inner: Vec<char> = slice_chars(&s, 10, s.len() - 1);
            let parts: Vec<Vec<char>> = split(&inner, ';');
            return Self::from_fields(ColorForm::Rgb, &parts, false);
        }
        let semicolon: usize = find_char(&s, 0, ';');
        proof {
            assert(s@.subrange(0, s.len() as int) == s@);
        }
        if semicolon < s.len() {
            let parts: Vec<Vec<char>> = split(&s, ';');
            return Self::from_fields(ColorForm::Rgb, &parts, false);
        }
        if starts_with(&s, "rgba") {
            return Self::from_call(ColorForm::Rgb, &s, 5, true);
        }
        if starts_with(&s, "rgb") {
            return Self::from_call(ColorForm::Rgb, &s, 4, false);
        }
        if starts_with(&s, "hsla") {
            return Self::from_call(ColorForm::Hsl, &s, 5, true);
        }
        if starts_with(&s, "hsl") {
            return Self::from_call(ColorForm::Hsl, &s, 4, false);
        }
        if starts_with(&s, "cymk") || starts_with(&s, "cmyk") {
            return Self::from_call(ColorForm::Cymk, &s, 5, false);
        }
        if s.len() > 0 && s[0] == '#' && (s.len() == 4 || s.len() == 5 || s.len() == 7 || s.len()
            == 9) {
            return Self::from_hex(&s);
        }
        match clr_name_standard.lookup(clr, term) {
            Some(rgb) => Ok(
                ColorRepresentation {
                    r: rgb[0] as i64 * UNIT,
                    g: rgb[1] as i64 * UNIT,
                    b: rgb[2] as i64 * UNIT,
                    a: 255,
                },
            ),
            None => Err(ParseError::UnknownName),
        }
    }
}

} // verus!
