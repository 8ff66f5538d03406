use tpick::cli::{
    contrast_action, convert_action, invert_action, mix, mix_action, requested_output,
    ContrastArgs, ConvertArgs, MixArgs, RequestedOutputType,
};
use tpick::color_conversions::ColorNameStandard;
use tpick::color_representation::ColorRepresentation;
use tpick::config::Config;
use tpick::error::ParseError;
use tpick::output_type::OutputType;
use tpick::state::{ProgramState, SelectionType};

const TERM: [[u8; 3]; 16] = [[0, 0, 0]; 16];

fn color(text: &str) -> ColorRepresentation {
    ColorRepresentation::from_color(text, &ColorNameStandard::W3C, &TERM).unwrap()
}

fn session(text: &str, output: OutputType) -> ProgramState {
    ProgramState::new(
        SelectionType::HSL,
        output.clone(),
        text,
        ColorNameStandard::W3C,
        vec![output],
        Config::empty(),
        vec![],
        vec![],
        &TERM,
    )
    .unwrap()
}

fn mix_args(color: &str, with: &[&str]) -> MixArgs {
    MixArgs {
        color: color.to_string(),
        with: with.iter().map(|s| s.to_string()).collect(),
        preview: false,
    }
}

#[test]
fn convert_prints_the_requested_encoding() {
    let c = color("#ff0080");
    let to = |to, alpha, fmt: Option<&str>| {
        convert_action(&ConvertArgs { alpha, to, fmt: fmt.map(|f| f.to_string()) }, &c)
    };
    assert_eq!(to(RequestedOutputType::RGB, false, None), "rgb(255, 0, 128)");
    assert_eq!(to(RequestedOutputType::RGB, true, None), "rgba(255, 0, 128, 255)");
    assert_eq!(to(RequestedOutputType::HEX, false, None), "#ff0080");
    assert_eq!(to(RequestedOutputType::HSL, false, None), "hsl(329.88, 100.00, 50.00)");
    assert_eq!(to(RequestedOutputType::CUSTOM, false, None), "ff0080");
    assert_eq!(to(RequestedOutputType::CUSTOM, false, Some("%R/%G")), "255/0");
    assert_eq!(requested_output(RequestedOutputType::CUSTOM, &None, "%D").name(), "%D");
    assert_eq!(requested_output(RequestedOutputType::HSL, &Some("x".to_string()), "%D").name(), "HSL");
}

#[test]
fn invert_prints_the_inverted_color() {
    let state = session("#ff0080", OutputType::HEX);
    let inverted = invert_action(&state);
    assert_eq!(inverted.rgb(), (0, 2_550_000, 1_270_000));
    assert_eq!(inverted.a(), 255);
    assert_eq!(state.output_type.render_output(&inverted, false), "#00ff7f");
}

#[test]
fn mix_takes_the_given_share() {
    let mixes = mix(
        &mix_args("#000000", &["#ffffff", "#ffffff:25", "white:100", "#ffffff:0", "#ffffff:250", "#ffffff:-3", "rgb(255,0,0):50.5:9"]),
        &ColorNameStandard::W3C,
        &TERM,
    )
    .unwrap();
    let numbers: Vec<u32> = mixes.iter().map(|c| c.integer()).collect();
    assert_eq!(numbers, [0x7f7f7f, 0x3f3f3f, 0xffffff, 0, 0xffffff, 0, 0x800000]);
}

#[test]
fn mix_fails_on_what_it_cannot_read() {
    let std = ColorNameStandard::W3C;
    assert_eq!(mix(&mix_args("nothing", &["#fff"]), &std, &TERM).err(), Some(ParseError::UnknownName));
    assert_eq!(mix(&mix_args("#000", &["#fff:x"]), &std, &TERM).err(), Some(ParseError::InvalidNumber));
    assert_eq!(mix(&mix_args("#000", &["#fff", "#ggg"]), &std, &TERM).err(), Some(ParseError::InvalidHex));
    assert_eq!(mix(&mix_args("#000", &["nothing:x"]), &std, &TERM).err(), Some(ParseError::InvalidNumber));
    assert_eq!(mix(&mix_args("#000", &[]), &std, &TERM).unwrap().len(), 0);
}

#[test]
fn mix_prints_in_the_encoding_of_the_session() {
    let state = session("#000000", OutputType::RGB);
    assert_eq!(
        mix_action(&mix_args("#000000", &["#ffffff", "red:100"]), &state, &TERM),
        Ok(vec!["rgb(127, 127, 127)".to_string(), "rgb(255, 0, 0)".to_string()])
    );
    assert_eq!(
        mix_action(&mix_args("#000000", &["?"]), &state, &TERM),
        Err(ParseError::UnknownName)
    );
}

#[test]
fn contrast_against_each_color() {
    let state = session("#ffffff", OutputType::RGB);
    let args = ContrastArgs { colors: vec!["#0000ff".to_string(), "white".to_string(), "black".to_string()] };
    assert_eq!(contrast_action(&args, &state, &TERM), Ok(vec![85_924, 10_000, 210_000]));
    let bad = ContrastArgs { colors: vec!["#0000ff".to_string(), "#12".to_string()] };
    assert_eq!(contrast_action(&bad, &state, &TERM), Err(ParseError::UnknownName));
}
