use tpick::color_conversions::ColorNameStandard;
use tpick::color_representation::ColorRepresentation;
use tpick::error::ParseError;
use tpick::output_type::OutputType;

const TERM: [[u8; 3]; 16] = [[1, 2, 3]; 16];

fn parse(text: &str) -> Result<ColorRepresentation, ParseError> {
    ColorRepresentation::from_color(text, &ColorNameStandard::W3C, &TERM)
}

fn rgba(text: &str) -> (i64, i64, i64, u8) {
    let c = parse(text).unwrap();
    let (r, g, b) = c.rgb();
    (r, g, b, c.a())
}

#[test]
fn parse_and_format_red() {
    let c = parse("#ff0000").unwrap();
    assert_eq!(c.rgb(), (2_550_000, 0, 0));
    assert_eq!(c.a(), 255);
    assert_eq!(c.tohex(false), "ff0000");
    assert_eq!(c.tohsl(false), "0.00, 100.00, 50.00");
    assert_eq!(c.torgb(false), "255, 0, 0");
    assert_eq!(c.toansi(false), "255;0;0");
    assert_eq!(c.tocymk(false), "0.00, 100.00, 100.00, 0.00");
    assert_eq!(c.tohex(true), "ff0000ff");
    assert_eq!(c.tohsl(true), "0.00, 100.00, 50.00, 255");
    assert_eq!(c.torgb(true), "255, 0, 0, 255");
    assert_eq!(c.tocymk(true), "0.00, 100.00, 100.00, 0.00, 255");
    assert_eq!(c.to_string(), "ff0000ff");
}

#[test]
fn parse_hex_forms() {
    assert_eq!(rgba("#f0a"), (2_250_000, 0, 1_000_000, 255));
    assert_eq!(rgba("#f0a3"), (2_250_000, 0, 1_000_000, 9));
    assert_eq!(rgba("#102030"), (160_000, 320_000, 480_000, 255));
    assert_eq!(rgba("#10203040"), (160_000, 320_000, 480_000, 64));
    assert_eq!(parse("#12345g").err(), Some(ParseError::InvalidHex));
    assert_eq!(parse("#xyz").err(), Some(ParseError::InvalidHex));
}

#[test]
fn parse_number_lists() {
    assert_eq!(rgba("1;2;3"), (10_000, 20_000, 30_000, 255));
    assert_eq!(rgba(" 1.5 ; 2 ;3;99"), (15_000, 20_000, 30_000, 255));
    assert_eq!(rgba("\\x1b[38;2;10;20;30m"), (100_000, 200_000, 300_000, 255));
    assert_eq!(rgba("rgb(1, 2, 3)"), (10_000, 20_000, 30_000, 255));
    assert_eq!(rgba("rgb(300, -2, 3.99999)"), (2_550_000, 0, 39_999, 255));
    assert_eq!(rgba("rgba(1, 2, 3, 4)"), (10_000, 20_000, 30_000, 4));
    assert_eq!(rgba("hsl(0, 100, 50)"), (2_550_000, 0, 0, 255));
    assert_eq!(rgba("hsl(480, 100, 50)"), (0, 2_550_000, 0, 255));
    assert_eq!(rgba("hsla(240, 100, 50, 7)"), (0, 0, 2_550_000, 7));
    assert_eq!(rgba("cymk(0, 100, 100, 0)"), (2_550_000, 0, 0, 255));
    assert_eq!(rgba("cmyk(0, 100, 100, 0)"), (2_550_000, 0, 0, 255));
}

#[test]
fn parse_names() {
    assert_eq!(rgba("dark slate gray"), (470_000, 790_000, 790_000, 255));
    assert_eq!(rgba("red"), (2_550_000, 0, 0, 255));
    assert_eq!(
        ColorRepresentation::from_color("red", &ColorNameStandard::MyTerm, &TERM)
            .unwrap()
            .rgb(),
        (10_000, 20_000, 30_000)
    );
}

#[test]
fn parse_errors() {
    assert_eq!(parse("").err(), Some(ParseError::UnknownName));
    assert_eq!(parse("no such colour").err(), Some(ParseError::UnknownName));
    assert_eq!(parse("rgb").err(), Some(ParseError::Malformed));
    assert_eq!(parse("\\x1b[38;2").err(), Some(ParseError::Malformed));
    assert_eq!(parse("rgb(1, 2)").err(), Some(ParseError::MissingField));
    assert_eq!(parse("1;2").err(), Some(ParseError::MissingField));
    assert_eq!(parse("rgb(1, x, 3)").err(), Some(ParseError::InvalidNumber));
    assert_eq!(parse("rgba(1, 2, 3, 256)").err(), Some(ParseError::InvalidNumber));
    assert_eq!(parse("rgba(1, 2, 3, 1.5)").err(), Some(ParseError::InvalidNumber));
    assert_eq!(parse("hsl(1e2, 2, 3)").err(), Some(ParseError::InvalidNumber));
    assert_eq!(parse("#12345g").err(), Some(ParseError::InvalidHex));
}

#[test]
fn every_error_has_a_message() {
    assert_eq!(ParseError::Malformed.message(), "incomplete color");
    assert_eq!(ParseError::MissingField.message(), "missing number");
    assert_eq!(ParseError::InvalidNumber.message(), "invalid number");
    assert_eq!(ParseError::InvalidHex.message(), "invalid hex digit");
    assert_eq!(ParseError::UnknownName.message(), "unknown color name");
}

#[test]
fn edits_clamp_and_ring() {
    let mut c = parse("#102030").unwrap();
    assert!(!c.modify_rgb((0, 2_550_000, 1)));
    assert_eq!(c.rgb(), (0, 2_550_000, 1));
    assert!(c.modify_rgb((-1, 0, 0)));
    assert_eq!(c.rgb(), (0, 0, 0));
    assert!(c.modify_rgb((0, 2_550_001, 0)));
    assert_eq!(c.rgb(), (0, 2_550_000, 0));
    assert!(!c.modify_a(0));
    assert!(!c.modify_a(255));
    assert!(c.modify_a(256));
    assert_eq!(c.a(), 255);
    assert!(c.modify_a(-1));
    assert_eq!(c.a(), 0);
    assert!(!c.modify_hsl((3_590_000, 1_000_000, 500_000)));
    assert!(c.modify_hsl((3_590_001, 1_000_000, 500_000)));
    assert!(c.modify_hsl((0, 1_000_001, 500_000)));
    assert!(!c.modify_cymk((0, 1_000_000, 1_000_000, 0)));
    assert_eq!(c.rgb(), (2_550_000, 0, 0));
    assert!(c.modify_cymk((0, 0, 0, 1_000_001)));
    assert_eq!(c.rgb(), (0, 0, 0));
}

#[test]
fn additions_go_through_the_edits() {
    let mut c = parse("#102030").unwrap();
    assert!(!c.add_rgba([10_000, -10_000, 5_000, -15_000]));
    assert_eq!(c.rgb(), (170_000, 310_000, 485_000));
    assert_eq!(c.a(), 254);
    assert!(c.add_rgba([i64::MAX, 0, 0, i64::MIN]));
    assert_eq!(c.rgb(), (2_550_000, 310_000, 485_000));
    assert_eq!(c.a(), 0);
    let mut d = parse("hsl(100, 50, 50)").unwrap();
    assert!(!d.add_hsla([100_000, 0, 0, 0]));
    let (h, _, _) = d.hsl();
    assert!((h - 1_100_000).abs() < 100, "{}", h);
    let mut e = parse("#000000").unwrap();
    assert!(e.add_cymka([0, 0, 0, 10_000, 0]));
    assert!(!e.add_cymka([0, 0, 0, -500_000, 0]));
    assert_eq!(e.rgb(), (1_275_000, 1_275_000, 1_275_000));
}

#[test]
fn integers_there_and_back() {
    let c = ColorRepresentation::from_integer(0x0a0b0c);
    assert_eq!(c.rgb(), (100_000, 110_000, 120_000));
    assert_eq!(c.a(), 255);
    assert_eq!(c.integer(), 0x0a0b0c);
    assert_eq!(ColorRepresentation::new(-5, 3_000_000, 7, 9).rgb(), (0, 2_550_000, 7));
}

#[test]
fn templates() {
    let c = parse("#ff0080").unwrap();
    assert_eq!(c.tofmt("%R %G %B"), "255 0 128");
    assert_eq!(c.tofmt("%xR%xG%xB"), "ff0080");
    assert_eq!(c.tofmt("%xD"), "ff0080");
    assert_eq!(c.tofmt("%D"), "16711808");
    assert_eq!(c.tofmt("#%x6D!"), "#ff0080!");
    assert_eq!(c.tofmt("%x8D"), "00ff0080");
    assert_eq!(c.tofmt("%x1G"), "0");
    assert_eq!(c.tofmt("%4G"), "0");
    assert_eq!(c.tofmt("%H,%S,%L"), "329,100,50");
    assert_eq!(c.tofmt("%C,%Y,%M,%K"), "0,49,100,0");
    assert_eq!(c.tofmt("%A"), "255");
    assert_eq!(c.tofmt("%E"), "198");
    assert_eq!(c.tofmt("a%nb%tc"), "a\nb\tc");
    assert_eq!(c.tofmt("100%% %z."), "100.");
    assert_eq!(c.tofmt("%"), "");
    assert_eq!(c.tofmt("plain"), "plain");
    assert_eq!(c.tofmt("%x999R").len(), 255);
}

#[test]
fn outputs() {
    let c = parse("rgba(1, 2, 3, 4)").unwrap();
    assert_eq!(c.get_output_clr(&OutputType::RGB, false), "1, 2, 3");
    assert_eq!(c.get_output_clr(&OutputType::RGB, true), "1, 2, 3, 4");
    assert_eq!(c.get_output_clr(&OutputType::HEX, true), "01020304");
    assert_eq!(c.get_output_clr(&OutputType::ANSI, true), "1;2;3");
    assert_eq!(c.get_output_clr(&OutputType::HSL, false), "210.00, 50.00, 0.78");
    assert_eq!(c.get_output_clr(&OutputType::CYMK, false), "66.67, 0.00, 33.33, 98.82");
    assert_eq!(c.get_output_clr(&OutputType::CUSTOM("%R-%A".to_string()), false), "1-4");
    assert_eq!(
        c.get_output_clr(&OutputType::ALL, false),
        "210.00, 50.00, 0.78\n1, 2, 3\n010203\n1;2;3"
    );
    assert_eq!(c.get_formatted_output_clr(&OutputType::RGB, false), "rgb(1, 2, 3)");
    assert_eq!(c.get_formatted_output_clr(&OutputType::RGB, true), "rgba(1, 2, 3, 4)");
    assert_eq!(c.get_formatted_output_clr(&OutputType::HEX, false), "#010203");
    assert_eq!(c.get_formatted_output_clr(&OutputType::ANSI, false), "\\x1b[38;2;1;2;3m");
    assert_eq!(c.get_formatted_output_clr(&OutputType::HSL, false), "hsl(210.00, 50.00, 0.78)");
    assert_eq!(
        c.get_formatted_output_clr(&OutputType::HSL, true),
        "hsla(210.00, 50.00, 0.78, 4)"
    );
    assert_eq!(
        c.get_formatted_output_clr(&OutputType::CYMK, false),
        "cymk(66.67, 0.00, 33.33, 98.82)"
    );
    assert_eq!(
        c.get_formatted_output_clr(&OutputType::CYMK, true),
        "cymka(66.67, 0.00, 33.33, 98.82, 4)"
    );
    assert_eq!(c.get_formatted_output_clr(&OutputType::CUSTOM("%xD".to_string()), true), "10203");
    assert_eq!(
        c.get_formatted_output_clr(&OutputType::ALL, false),
        "hsl(210.00, 50.00, 0.78)\nrgb(1, 2, 3)\n#010203\n\\x1b[38;2;1;2;3m"
    );
}

#[test]
fn formatted_colors_can_be_read_again() {
    let c = parse("#336699").unwrap();
    for output in [OutputType::RGB, OutputType::HEX, OutputType::ANSI] {
        let text = c.get_formatted_output_clr(&output, false);
        assert_eq!(parse(&text).unwrap().rgb(), c.rgb(), "{}", text);
    }
    let text = c.get_formatted_output_clr(&OutputType::RGB, true);
    assert_eq!(parse(&text).unwrap().a(), 255);
}
