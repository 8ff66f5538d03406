use tpick::color_conversions::{
    ansi2562rgb, color_mix, contrast, cymk2rgb, fifth_root_floor, hex62rgb, hsl2rgb, invert,
    luminance, name_to_hex, number2rgb, rgb2ansi256, rgb2cymk, rgb2hsl, rgb2number,
    ColorNameStandard, MixSpace,
};
use tpick::error::ParseError;
use tpick::math::{clamp, clamp_with_bel, UNIT};

const LOW: [[u8; 3]; 16] = [
    [0, 0, 0],
    [205, 0, 0],
    [0, 205, 0],
    [205, 205, 0],
    [0, 0, 238],
    [205, 0, 205],
    [0, 205, 205],
    [229, 229, 229],
    [127, 127, 127],
    [255, 0, 0],
    [0, 255, 0],
    [255, 255, 0],
    [92, 92, 255],
    [255, 0, 255],
    [0, 255, 255],
    [255, 255, 255],
];

#[test]
fn color_conversions() {
    assert_eq!(rgb2hsl(2_550_000, 0, 1_200_000), (3_317_647, 1_000_000, 500_000));
    assert_eq!(hsl2rgb(3_317_647, 1_000_000, 500_000), (2_550_000, 0, 1_200_000));
    assert_eq!(contrast([2_550_000, 2_550_000, 2_550_000], [0, 0, 2_550_000]), 85_924);
}

#[test]
fn contrast_of_white_and_blue() {
    let ratio = contrast([2_550_000, 2_550_000, 2_550_000], [0, 0, 2_550_000]);
    assert!((ratio as f64 / 10_000.0 - 8.592471).abs() < 0.0001);
    assert_eq!(contrast([0, 0, 2_550_000], [2_550_000, 2_550_000, 2_550_000]), ratio);
}

#[test]
fn contrast_ends() {
    assert_eq!(contrast([0, 0, 0], [2_550_000, 2_550_000, 2_550_000]), 210_000);
    assert_eq!(contrast([1_000_000, 1_000_000, 1_000_000], [1_000_000, 1_000_000, 1_000_000]), 10_000);
}

#[test]
fn luminance_follows_the_formula() {
    assert_eq!(luminance([0, 0, 0]), 0);
    assert_eq!(luminance([2_550_000, 2_550_000, 2_550_000]), 10_000_000);
    assert_eq!(luminance([2_550_000, 0, 0]), 2_126_000);
    assert_eq!(luminance([0, 2_550_000, 0]), 7_152_000);
    assert_eq!(luminance([0, 0, 2_550_000]), 722_000);
    for c in [50_000i64, 100_164, 100_165, 500_000, 1_280_000, 2_000_000, 2_549_999] {
        let v = c as f64 / 2_550_000.0;
        let lin = if v <= 0.03928 { v / 12.92 } else { ((v + 0.055) / 1.055).powf(2.4) };
        let got = luminance([c, c, c]) as f64 / 10_000_000.0;
        assert!((got - lin).abs() < 0.000_001, "{} {} {}", c, got, lin);
    }
}

#[test]
fn fifth_roots() {
    assert_eq!(fifth_root_floor(0), 0);
    assert_eq!(fifth_root_floor(1), 1);
    assert_eq!(fifth_root_floor(31), 1);
    assert_eq!(fifth_root_floor(32), 2);
    assert_eq!(fifth_root_floor(242), 2);
    assert_eq!(fifth_root_floor(243), 3);
    assert_eq!(fifth_root_floor(100_000_000_000_000_000_000_000_000_000_000_000), 10_000_000);
    assert_eq!(fifth_root_floor(99_999_999_999_999_999_999_999_999_999_999_999), 9_999_999);
}

#[test]
fn hsl_of_grey_has_no_hue_and_no_saturation() {
    assert_eq!(rgb2hsl(1_280_000, 1_280_000, 1_280_000), (0, 0, 501_960));
    assert_eq!(rgb2hsl(0, 0, 0), (0, 0, 0));
    assert_eq!(rgb2hsl(2_550_000, 2_550_000, 2_550_000), (0, 0, 1_000_000));
}

#[test]
fn hsl_sector_boundaries() {
    let full = 100 * UNIT;
    let half = 50 * UNIT;
    assert_eq!(hsl2rgb(0, full, half), (2_550_000, 0, 0));
    assert_eq!(hsl2rgb(60 * UNIT, full, half), (2_550_000, 2_550_000, 0));
    assert_eq!(hsl2rgb(120 * UNIT, full, half), (0, 2_550_000, 0));
    assert_eq!(hsl2rgb(180 * UNIT, full, half), (0, 2_550_000, 2_550_000));
    assert_eq!(hsl2rgb(240 * UNIT, full, half), (0, 0, 2_550_000));
    assert_eq!(hsl2rgb(300 * UNIT, full, half), (2_550_000, 0, 2_550_000));
    assert_eq!(hsl2rgb(360 * UNIT, full, half), (2_550_000, 0, 0));
    assert_eq!(hsl2rgb(-60 * UNIT, full, half), (2_550_000, 0, 2_550_000));
    assert_eq!(hsl2rgb(420 * UNIT, full, half), (2_550_000, 2_550_000, 0));
}

#[test]
fn hsl_round_trip_stays_within_one() {
    let mut r: i64 = 0;
    while r <= 255 {
        let mut g: i64 = 0;
        while g <= 255 {
            let mut b: i64 = 0;
            while b <= 255 {
                let (h, s, l) = rgb2hsl(r * UNIT, g * UNIT, b * UNIT);
                let (r2, g2, b2) = hsl2rgb(h, s, l);
                assert!((r2 - r * UNIT).abs() <= 16, "{} {} {}", r, g, b);
                assert!((g2 - g * UNIT).abs() <= 16, "{} {} {}", r, g, b);
                assert!((b2 - b * UNIT).abs() <= 16, "{} {} {}", r, g, b);
                b += 5;
            }
            g += 5;
        }
        r += 5;
    }
}

#[test]
fn cymk_round_trip_stays_within_one() {
    let mut r: i64 = 0;
    while r <= 255 {
        let mut g: i64 = 0;
        while g <= 255 {
            let mut b: i64 = 0;
            while b <= 255 {
                let (c, y, m, k) = rgb2cymk(r * UNIT, g * UNIT, b * UNIT);
                let (r2, g2, b2) = cymk2rgb(c, y, m, k);
                assert!((r2 - r * UNIT).abs() <= 6, "{} {} {}", r, g, b);
                assert!((g2 - g * UNIT).abs() <= 6, "{} {} {}", r, g, b);
                assert!((b2 - b * UNIT).abs() <= 6, "{} {} {}", r, g, b);
                b += 5;
            }
            g += 5;
        }
        r += 5;
    }
}

#[test]
fn cymk_of_black_has_only_black_ink() {
    assert_eq!(rgb2cymk(0, 0, 0), (0, 0, 0, 1_000_000));
    assert_eq!(cymk2rgb(0, 0, 0, 1_000_000), (0, 0, 0));
}

#[test]
fn cymk_of_red() {
    assert_eq!(rgb2cymk(2_550_000, 0, 0), (0, 1_000_000, 1_000_000, 0));
    assert_eq!(cymk2rgb(0, 1_000_000, 1_000_000, 0), (2_550_000, 0, 0));
}

#[test]
fn clamp_keeps_what_is_in_range() {
    assert_eq!(clamp(0, 17, 255), 17);
    assert_eq!(clamp(0, -1, 255), 0);
    assert_eq!(clamp(0, 256, 255), 255);
    assert_eq!(clamp_with_bel(0, 17, 255), (17, false));
    assert_eq!(clamp_with_bel(0, 0, 255), (0, false));
    assert_eq!(clamp_with_bel(0, 255, 255), (255, false));
    assert_eq!(clamp_with_bel(0, 300, 255), (255, true));
    assert_eq!(clamp_with_bel(0, -3, 255), (0, true));
}

#[test]
fn hex_pairs() {
    assert_eq!(hex62rgb("ff0000"), Ok((255, 0, 0)));
    assert_eq!(hex62rgb("1A2b3C"), Ok((0x1a, 0x2b, 0x3c)));
    assert_eq!(hex62rgb("0102037f"), Ok((1, 2, 3)));
    assert_eq!(hex62rgb("ff00"), Err(ParseError::Malformed));
    assert_eq!(hex62rgb("ff00zz"), Err(ParseError::InvalidHex));
    assert_eq!(hex62rgb("+f0000"), Err(ParseError::InvalidHex));
}

#[test]
fn ansi_low_entries_are_the_supplied_palette() {
    for i in 0..16u8 {
        let e = LOW[i as usize];
        assert_eq!(ansi2562rgb(i, &LOW), (e[0], e[1], e[2]));
    }
}

#[test]
fn ansi_grey_ramp() {
    assert_eq!(ansi2562rgb(232, &LOW), (8, 8, 8));
    assert_eq!(ansi2562rgb(255, &LOW), (238, 238, 238));
    assert_eq!(ansi2562rgb(244, &LOW), (128, 128, 128));
}

#[test]
fn ansi_cube() {
    assert_eq!(ansi2562rgb(16, &LOW), (0, 0, 0));
    assert_eq!(ansi2562rgb(17, &LOW), (0, 0, 95));
    assert_eq!(ansi2562rgb(21, &LOW), (0, 0, 255));
    assert_eq!(ansi2562rgb(22, &LOW), (0, 95, 0));
    assert_eq!(ansi2562rgb(196, &LOW), (255, 0, 0));
    assert_eq!(ansi2562rgb(231, &LOW), (255, 255, 255));
    assert_eq!(ansi2562rgb(110, &LOW), (135, 175, 215));
}

#[test]
fn ansi_quantization() {
    assert_eq!(rgb2ansi256(0, 0, 0), 16);
    assert_eq!(rgb2ansi256(255, 255, 255), 231);
    assert_eq!(rgb2ansi256(255, 0, 0), 196);
    assert_eq!(rgb2ansi256(46, 0, 0), 16);
    assert_eq!(rgb2ansi256(47, 0, 0), 52);
    assert_eq!(rgb2ansi256(114, 0, 0), 52);
    assert_eq!(rgb2ansi256(115, 0, 0), 88);
    assert_eq!(rgb2ansi256(0, 0, 234), 20);
    assert_eq!(rgb2ansi256(0, 0, 235), 21);
    assert_eq!(rgb2ansi256(135, 175, 215), 110);
}

#[test]
fn ansi_cube_entries_come_back() {
    for i in 16..=231u8 {
        let (r, g, b) = ansi2562rgb(i, &LOW);
        assert_eq!(rgb2ansi256(r, g, b), i);
    }
}

#[test]
fn numbers_pack_and_unpack() {
    assert_eq!(number2rgb(0xff0080), (255, 0, 128));
    assert_eq!(number2rgb(0x12ff0080), (255, 0, 128));
    assert_eq!(rgb2number(255 * UNIT, 0, 128 * UNIT + 9_999), 0xff0080);
}

#[test]
fn invert_takes_each_channel_from_255() {
    assert_eq!(invert(0xff0080), 0x00ff7f);
    assert_eq!(invert(0), 0xffffff);
    assert_eq!(invert(invert(0x123456)), 0x123456);
}

#[test]
fn mix_in_rgb() {
    assert_eq!(color_mix(0xff0000, 0x0000ff, 0, &MixSpace::RGB), 0xff0000);
    assert_eq!(color_mix(0xff0000, 0x0000ff, UNIT, &MixSpace::RGB), 0x0000ff);
    assert_eq!(color_mix(0xff0000, 0x0000ff, 5_000, &MixSpace::RGB), 0x7f007f);
    assert_eq!(color_mix(0x000000, 0xffffff, 2_500, &MixSpace::RGB), 0x3f3f3f);
}

#[test]
fn mix_in_hsl_does_not_take_the_short_way() {
    // red (hue 0) and blue (hue 240) meet at hue 120, which is green
    assert_eq!(color_mix(0xff0000, 0x0000ff, 5_000, &MixSpace::HSL), 0x00ff00);
    assert_eq!(color_mix(0xff0000, 0x0000ff, 0, &MixSpace::HSL), 0xff0000);
    assert_eq!(color_mix(0xff0000, 0x0000ff, UNIT, &MixSpace::HSL), 0x0000ff);
}

#[test]
fn names_depend_on_the_standard() {
    assert_eq!(name_to_hex("gray", &ColorNameStandard::X11, &LOW), "#bebebe");
    assert_eq!(name_to_hex("gray", &ColorNameStandard::W3C, &LOW), "#808080");
    assert_eq!(name_to_hex("green", &ColorNameStandard::W3C, &LOW), "#008000");
    assert_eq!(name_to_hex("green", &ColorNameStandard::X11, &LOW), "#00ff00");
    assert_eq!(name_to_hex("green", &ColorNameStandard::XTerm, &LOW), "#00cd00");
    assert_eq!(name_to_hex("green", &ColorNameStandard::MyTerm, &LOW), "#00cd00");
    assert_eq!(name_to_hex("32", &ColorNameStandard::MyTerm, &LOW), "#00cd00");
    assert_eq!(name_to_hex("94", &ColorNameStandard::MyTerm, &LOW), "#5c5cff");
    assert_eq!(name_to_hex("dark slate gray", &ColorNameStandard::W3C, &LOW), "#2f4f4f");
    assert_eq!(name_to_hex("no such colour", &ColorNameStandard::W3C, &LOW), "#000000");
}

#[test]
fn list_of_names() {
    let colors = ColorNameStandard::W3C.list_colors(&LOW);
    assert_eq!(colors.len(), 177);
    assert_eq!(colors[0], ("alice blue", [0xf0, 0xf8, 0xff]));
    assert!(colors.contains(&("yellow green", [0x9a, 0xcd, 0x32])));
    assert!(colors.contains(&("red", [0xff, 0, 0])));
    assert!(colors.contains(&("31", [0xff, 0, 0])));
    assert!(colors.contains(&("maroon", [0x80, 0, 0])));
    for (i, a) in colors.iter().enumerate() {
        for b in colors.iter().skip(i + 1) {
            assert_ne!(a.0, b.0);
        }
    }
}
