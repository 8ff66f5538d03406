use tpick::color_conversions::ColorNameStandard;
use tpick::color_representation::ColorRepresentation;
use tpick::config::{Config, ConfigKeybind, ConfigOutput};
use tpick::error::ParseError;
use tpick::keymaps::{
    apply, init_keymaps, input_new_color, read_keymap_from_config, select_all_outputs,
    select_custom_format, select_output, select_output_cycle, set_value, Action, Command,
    Request, Step,
};
use tpick::output_type::OutputType;
use tpick::state::{ProgramState, SelectionType};

const LOW: [[u8; 3]; 16] = [[9, 8, 7]; 16];

fn session(color: &str, selection: SelectionType, order: Vec<OutputType>) -> ProgramState {
    ProgramState::new(
        selection,
        order[0].clone(),
        color,
        ColorNameStandard::W3C,
        order,
        Config::empty(),
        vec![],
        vec![],
        &LOW,
    )
    .unwrap()
}

fn hsl_session(color: &str) -> ProgramState {
    session(color, SelectionType::HSL, OutputType::default_order(&Config::empty()))
}

fn press(state: &mut ProgramState, command: Command) -> Step {
    apply(state, command, &LOW)
}

fn names(order: &[OutputType]) -> Vec<String> {
    order.iter().map(|o| o.name()).collect()
}

#[test]
fn new_session() {
    let state = hsl_session("#ff0000");
    assert_eq!(state.selected_item, 0);
    assert!(!state.enable_alpha);
    assert_eq!(state.output_idx, 0);
    assert_eq!(state.curr_color.rgb(), (2_550_000, 0, 0));
    assert_eq!(state.output_type.name(), "HSL");
    assert_eq!(names(&state.output_order), ["HSL", "RGB", "HEX", "ANSI"]);
    let bad = ProgramState::new(
        SelectionType::HSL,
        OutputType::HSL,
        "rgb(1,2)",
        ColorNameStandard::W3C,
        vec![OutputType::HSL],
        Config::empty(),
        vec![],
        vec![],
        &LOW,
    );
    assert_eq!(bad.err(), Some(ParseError::MissingField));
}

#[test]
fn selection_type_cycles_back_after_four_steps() {
    let mut state = hsl_session("#ff0000");
    let mut seen = vec![];
    for _ in 0..4 {
        press(&mut state, Command::CycleSelectionType);
        seen.push(state.selection_type);
    }
    assert_eq!(
        seen,
        [SelectionType::RGB, SelectionType::CMYK, SelectionType::ANSI256, SelectionType::HSL]
    );
}

#[test]
fn entering_and_leaving_the_palette_clears_and_resets() {
    let mut state = hsl_session("#ff0000");
    press(&mut state, Command::Down);
    press(&mut state, Command::Down);
    assert_eq!(state.selected_item, 2);
    let to_rgb = press(&mut state, Command::CycleSelectionType);
    assert!(!to_rgb.clear);
    assert_eq!(state.selected_item, 2);
    let to_cmyk = press(&mut state, Command::CycleSelectionType);
    assert!(!to_cmyk.clear);
    assert_eq!(state.selected_item, 2);
    let to_palette = press(&mut state, Command::CycleSelectionType);
    assert!(to_palette.clear);
    assert_eq!(state.selected_item, 0);
    press(&mut state, Command::SetMaxValue);
    assert_eq!(state.selected_item, 255);
    let to_hsl = press(&mut state, Command::CycleSelectionType);
    assert!(to_hsl.clear);
    assert_eq!(state.selected_item, 0);
    assert_eq!(state.selection_type, SelectionType::HSL);
}

#[test]
fn output_cycle_wraps() {
    let order = vec![OutputType::HEX, OutputType::RGB, OutputType::CYMK];
    let mut state = session("#ff0000", SelectionType::HSL, order);
    let mut seen = vec![];
    for _ in 0..4 {
        let step = press(&mut state, Command::ChangeOutput);
        assert!(step.clear);
        seen.push((state.output_idx, state.output_type.name()));
    }
    assert_eq!(
        seen,
        [
            (1, "RGB".to_string()),
            (2, "CYMK".to_string()),
            (0, "HEX".to_string()),
            (1, "RGB".to_string())
        ]
    );
}

#[test]
fn all_outputs_pin_the_cycle_to_its_start() {
    let order = vec![OutputType::HEX, OutputType::RGB, OutputType::CYMK];
    let mut state = session("#ff0000", SelectionType::HSL, order);
    press(&mut state, Command::ChangeOutput);
    press(&mut state, Command::ChangeOutput);
    assert_eq!(state.output_idx, 2);
    select_all_outputs(&mut state);
    assert_eq!(state.output_type.name(), "ALL");
    assert_eq!(state.output_idx, 2);
    press(&mut state, Command::ChangeOutput);
    assert_eq!(state.output_idx, 0);
    assert_eq!(state.output_type.name(), "HEX");
    press(&mut state, Command::ChangeOutput);
    assert_eq!(state.output_idx, 1);
}

#[test]
fn typed_value_that_is_no_number_changes_nothing() {
    let mut state = hsl_session("#336699");
    let before = (state.curr_color.rgb(), state.curr_color.a(), state.selected_item);
    assert_eq!(set_value(&mut state, "abc", &LOW), Err(ParseError::InvalidNumber));
    assert_eq!(set_value(&mut state, "", &LOW), Err(ParseError::InvalidNumber));
    assert_eq!(set_value(&mut state, " 12", &LOW), Err(ParseError::InvalidNumber));
    assert_eq!(set_value(&mut state, "1e3", &LOW), Err(ParseError::InvalidNumber));
    assert_eq!((state.curr_color.rgb(), state.curr_color.a(), state.selected_item), before);
    assert_eq!(state.selection_type, SelectionType::HSL);
}

#[test]
fn typed_value_sets_the_selected_channel() {
    let mut state = session("#000000", SelectionType::RGB, vec![OutputType::RGB]);
    assert_eq!(set_value(&mut state, "12.5", &LOW), Ok(false));
    assert_eq!(state.curr_color.rgb(), (125_000, 0, 0));
    press(&mut state, Command::Down);
    assert_eq!(set_value(&mut state, "300", &LOW), Ok(true));
    assert_eq!(state.curr_color.rgb(), (125_000, 2_550_000, 0));
    assert_eq!(set_value(&mut state, "-1", &LOW), Ok(true));
    assert_eq!(state.curr_color.rgb(), (125_000, 0, 0));
    press(&mut state, Command::ToggleAlpha);
    press(&mut state, Command::Up);
    press(&mut state, Command::Up);
    assert_eq!(state.selected_item, 3);
    // alpha moves by the whole part of the difference: 255 - 237
    assert_eq!(set_value(&mut state, "17.9", &LOW), Ok(false));
    assert_eq!(state.curr_color.a(), 18);
    assert_eq!(set_value(&mut state, "17", &LOW), Ok(false));
    assert_eq!(state.curr_color.a(), 17);
    assert_eq!(set_value(&mut state, "999999999999999999999999", &LOW), Ok(true));
    assert_eq!(state.curr_color.a(), 255);
}

#[test]
fn value_keys() {
    let mut state = session("#000000", SelectionType::RGB, vec![OutputType::RGB]);
    let step = press(&mut state, Command::SetMaxValue);
    assert!(!step.bell && !step.clear && step.action.is_none());
    assert!(matches!(step.request, Request::Nothing));
    assert_eq!(state.curr_color.rgb(), (2_550_000, 0, 0));
    assert!(press(&mut state, Command::IncreaseValue).bell);
    assert_eq!(state.curr_color.rgb(), (2_550_000, 0, 0));
    assert!(!press(&mut state, Command::DecreaseValue).bell);
    assert_eq!(state.curr_color.rgb(), (2_540_000, 0, 0));
    press(&mut state, Command::DecreaseValue10);
    assert_eq!(state.curr_color.rgb(), (2_440_000, 0, 0));
    press(&mut state, Command::IncreaseValue10);
    assert_eq!(state.curr_color.rgb(), (2_540_000, 0, 0));
    press(&mut state, Command::SetTenths(5));
    assert_eq!(state.curr_color.rgb(), (1_275_000, 0, 0));
    press(&mut state, Command::SetTenths(0));
    assert_eq!(state.curr_color.rgb(), (0, 0, 0));
    assert!(press(&mut state, Command::DecreaseValue).bell);
    press(&mut state, Command::SetTenths(200));
    assert_eq!(state.curr_color.rgb(), (2_295_000, 0, 0));
}

#[test]
fn value_keys_in_hsl_and_inks() {
    let mut state = hsl_session("hsl(100, 50, 50)");
    press(&mut state, Command::IncreaseValue);
    let (h, s, l) = state.curr_color.hsl();
    assert!((h - 1_010_000).abs() < 200, "{}", h);
    assert!((s - 500_000).abs() < 200 && (l - 500_000).abs() < 200);
    press(&mut state, Command::Down);
    press(&mut state, Command::SetMaxValue);
    let (_, s, _) = state.curr_color.hsl();
    assert!((s - 1_000_000).abs() < 200, "{}", s);
    let mut inks = session("#ffffff", SelectionType::CMYK, vec![OutputType::CYMK]);
    press(&mut inks, Command::Up);
    assert_eq!(inks.selected_item, 3);
    press(&mut inks, Command::SetMaxValue);
    assert_eq!(inks.curr_color.rgb(), (0, 0, 0));
    press(&mut inks, Command::SetTenths(5));
    assert_eq!(inks.curr_color.rgb(), (1_275_000, 1_275_000, 1_275_000));
}

#[test]
fn value_keys_in_the_palette() {
    let mut state = session("#000000", SelectionType::ANSI256, vec![OutputType::RGB]);
    press(&mut state, Command::IncreaseValue);
    assert_eq!(state.selected_item, 1);
    assert_eq!(state.curr_color.rgb(), (90_000, 80_000, 70_000));
    press(&mut state, Command::IncreaseValue10);
    press(&mut state, Command::IncreaseValue10);
    assert_eq!(state.selected_item, 21);
    assert_eq!(state.curr_color.rgb(), (0, 0, 2_550_000));
    press(&mut state, Command::Up);
    press(&mut state, Command::Down);
    assert_eq!(state.selected_item, 21);
    let step = press(&mut state, Command::ToggleAlpha);
    assert!(!step.clear && !state.enable_alpha);
    press(&mut state, Command::SetMaxValue);
    assert_eq!(state.selected_item, 255);
    assert_eq!(state.curr_color.rgb(), (2_380_000, 2_380_000, 2_380_000));
    assert!(!press(&mut state, Command::IncreaseValue).bell);
    assert_eq!(state.selected_item, 255);
    assert_eq!(set_value(&mut state, "232", &LOW), Ok(false));
    assert_eq!(state.curr_color.rgb(), (80_000, 80_000, 80_000));
}

#[test]
fn selection_moves_around() {
    let mut state = hsl_session("#ff0000");
    let mut seen = vec![];
    for _ in 0..4 {
        press(&mut state, Command::Down);
        seen.push(state.selected_item);
    }
    assert_eq!(seen, [1, 2, 0, 1]);
    press(&mut state, Command::Up);
    press(&mut state, Command::Up);
    assert_eq!(state.selected_item, 2);
    let step = press(&mut state, Command::ToggleAlpha);
    assert!(step.clear && state.enable_alpha);
    press(&mut state, Command::Down);
    assert_eq!(state.selected_item, 3);
    press(&mut state, Command::Down);
    assert_eq!(state.selected_item, 0);
    press(&mut state, Command::Up);
    assert_eq!(state.selected_item, 3);
    press(&mut state, Command::ToggleAlpha);
    assert!(!state.enable_alpha);
    press(&mut state, Command::Down);
    assert_eq!(state.selected_item, 0);
}

#[test]
fn quitting_and_copying() {
    let mut state = session("#010203", SelectionType::RGB, vec![OutputType::RGB]);
    let quit = press(&mut state, Command::Quit);
    assert_eq!(quit.action, Some(Action::Break));
    assert!(matches!(quit.request, Request::Nothing));
    let quit_copy = press(&mut state, Command::QuitAndCopy);
    assert_eq!(quit_copy.action, Some(Action::Break));
    assert!(matches!(quit_copy.request, Request::Copy(ref t) if t == "rgb(1, 2, 3)"));
    let copy = press(&mut state, Command::Copy);
    assert_eq!(copy.action, None);
    assert!(matches!(copy.request, Request::Copy(ref t) if t == "rgb(1, 2, 3)"));
    let raw = press(&mut state, Command::CopyRaw);
    assert!(matches!(raw.request, Request::Copy(ref t) if t == "1, 2, 3"));
    press(&mut state, Command::ToggleAlpha);
    let with_alpha = press(&mut state, Command::Copy);
    assert!(matches!(with_alpha.request, Request::Copy(ref t) if t == "rgba(1, 2, 3, 255)"));
}

#[test]
fn requests_for_the_user() {
    let mut state = hsl_session("#ff0000");
    press(&mut state, Command::Down);
    assert!(matches!(press(&mut state, Command::SetValue).request, Request::SetValue('S')));
    assert!(matches!(press(&mut state, Command::InputNewColor).request, Request::NewColor));
    assert!(matches!(press(&mut state, Command::Paste).request, Request::Paste));
    assert!(matches!(press(&mut state, Command::SelectOutput).request, Request::SelectOutput));
    press(&mut state, Command::CycleSelectionType);
    assert!(matches!(press(&mut state, Command::SetValue).request, Request::SetValue('G')));
    press(&mut state, Command::CycleSelectionType);
    assert!(matches!(press(&mut state, Command::SetValue).request, Request::SetValue('Y')));
    press(&mut state, Command::CycleSelectionType);
    assert!(matches!(press(&mut state, Command::SetValue).request, Request::SetValue('e')));
}

#[test]
fn new_colors() {
    let mut state = hsl_session("#ff0000");
    assert_eq!(input_new_color(&mut state, "navy blue", &LOW), Ok(()));
    assert_eq!(state.curr_color.rgb(), (0, 0, 1_280_000));
    assert_eq!(input_new_color(&mut state, "nothing", &LOW), Err(ParseError::UnknownName));
    assert_eq!(input_new_color(&mut state, "#12", &LOW), Err(ParseError::UnknownName));
    assert_eq!(state.curr_color.rgb(), (0, 0, 1_280_000));
}

#[test]
fn chosen_outputs() {
    let mut state = hsl_session("#ff0000");
    press(&mut state, Command::ChangeOutput);
    select_output(&mut state, OutputType::ANSI);
    assert_eq!((state.output_type.name(), state.output_idx), ("ANSI".to_string(), 1));
    select_custom_format(&mut state, "%R".to_string());
    assert_eq!((state.output_type.name(), state.output_idx), ("%R".to_string(), 0));
    assert!(select_output_cycle(&mut state, "default"));
    assert_eq!((state.output_type.name(), state.output_idx), ("RGB".to_string(), 1));
    assert!(!select_output_cycle(&mut state, "web"));
    assert_eq!((state.output_type.name(), state.output_idx), ("RGB".to_string(), 1));
}

#[test]
fn cycles_of_the_configuration() {
    let config = Config {
        keybinds: None,
        outputs: Some(vec![
            ConfigOutput {
                name: "web".to_string(),
                order: vec!["HEX".to_string(), "rgb".to_string(), "%R-%G".to_string()],
            },
            ConfigOutput { name: "none".to_string(), order: vec![] },
            ConfigOutput { name: "default".to_string(), order: vec!["cmyk".to_string(), "All".to_string()] },
            ConfigOutput { name: "web".to_string(), order: vec!["hsl".to_string()] },
        ]),
    };
    assert_eq!(names(&OutputType::default_order(&config)), ["CYMK", "ALL"]);
    assert_eq!(names(&OutputType::get_order_by_name(&config, "default").unwrap()), ["CYMK", "ALL"]);
    assert_eq!(names(&OutputType::get_order_by_name(&config, "web").unwrap()), ["HEX", "RGB", "%R-%G"]);
    assert!(OutputType::get_order_by_name(&config, "missing").is_none());
    assert!(OutputType::get_order_by_name(&Config::empty(), "web").is_none());
    assert_eq!(
        names(&OutputType::get_order_by_name(&Config::empty(), "default").unwrap()),
        ["HSL", "RGB", "HEX", "ANSI"]
    );
    assert_eq!(OutputType::from_str("ansi").name(), "ANSI");
    assert_eq!(OutputType::from_str("cymk").name(), "CYMK");
    let mut state = ProgramState::new(
        SelectionType::HSL,
        OutputType::HSL,
        "#ff0000",
        ColorNameStandard::W3C,
        vec![OutputType::HSL],
        config,
        vec![],
        vec![],
        &LOW,
    )
    .unwrap();
    assert!(select_output_cycle(&mut state, "web"));
    assert_eq!((state.output_type.name(), state.output_idx), ("RGB".to_string(), 1));
    assert!(!select_output_cycle(&mut state, "none"));
    assert_eq!(names(&state.output_order), ["HEX", "RGB", "%R-%G"]);
}

#[test]
fn default_keys() {
    let keymap = init_keymaps(&Config::empty());
    assert_eq!(keymap.bindings.len(), 28);
    assert_eq!(keymap.lookup("q"), Some(Command::Quit));
    assert_eq!(keymap.lookup("\n"), Some(Command::QuitAndCopy));
    assert_eq!(keymap.lookup("$"), Some(Command::SetMaxValue));
    assert_eq!(keymap.lookup("0"), Some(Command::SetTenths(0)));
    assert_eq!(keymap.lookup("9"), Some(Command::SetTenths(9)));
    assert_eq!(keymap.lookup("l"), Some(Command::IncreaseValue));
    assert_eq!(keymap.lookup("h"), Some(Command::DecreaseValue));
    assert_eq!(keymap.lookup("L"), Some(Command::IncreaseValue10));
    assert_eq!(keymap.lookup("H"), Some(Command::DecreaseValue10));
    assert_eq!(keymap.lookup("k"), Some(Command::Up));
    assert_eq!(keymap.lookup("j"), Some(Command::Down));
    assert_eq!(keymap.lookup("i"), Some(Command::CycleSelectionType));
    assert_eq!(keymap.lookup("I"), Some(Command::SetValue));
    assert_eq!(keymap.lookup("o"), Some(Command::ChangeOutput));
    assert_eq!(keymap.lookup("O"), Some(Command::SelectOutput));
    assert_eq!(keymap.lookup("n"), Some(Command::InputNewColor));
    assert_eq!(keymap.lookup("y"), Some(Command::Copy));
    assert_eq!(keymap.lookup("Y"), Some(Command::CopyRaw));
    assert_eq!(keymap.lookup("p"), Some(Command::Paste));
    assert_eq!(keymap.lookup("a"), Some(Command::ToggleAlpha));
    assert_eq!(keymap.lookup("z"), None);
    assert_eq!(keymap.lookup(""), None);
    assert_eq!(keymap.lookup("qq"), None);
}

#[test]
fn configured_keys() {
    let config = Config {
        keybinds: Some(vec![
            ConfigKeybind { action: "quit".to_string(), key: "x".to_string() },
            ConfigKeybind { action: "50%".to_string(), key: "z".to_string() },
            ConfigKeybind { action: "up".to_string(), key: "a".to_string() },
            ConfigKeybind { action: "fly".to_string(), key: "f".to_string() },
            ConfigKeybind { action: "quit".to_string(), key: "\u{1b}".to_string() },
        ]),
        outputs: None,
    };
    let keys = read_keymap_from_config(&config);
    assert_eq!(keys.len(), 28);
    assert_eq!((keys[0].action.as_str(), keys[0].key.as_str()), ("quit", "\u{1b}"));
    assert_eq!((keys[1].action.as_str(), keys[1].key.as_str()), ("quit-and-copy", "\n"));
    assert_eq!((keys[8].action.as_str(), keys[8].key.as_str()), ("50%", "z"));
    assert_eq!((keys[27].action.as_str(), keys[27].key.as_str()), ("toggle-alpha", "a"));
    let keymap = init_keymaps(&config);
    assert_eq!(keymap.lookup("\u{1b}"), Some(Command::Quit));
    assert_eq!(keymap.lookup("x"), None);
    assert_eq!(keymap.lookup("q"), None);
    assert_eq!(keymap.lookup("z"), Some(Command::SetTenths(5)));
    assert_eq!(keymap.lookup("5"), None);
    assert_eq!(keymap.lookup("k"), None);
    // two commands on one key: the later one has it
    assert_eq!(keymap.lookup("a"), Some(Command::ToggleAlpha));
    assert_eq!(keymap.lookup("f"), None);
    assert_eq!(Command::SetTenths(7).name(), "70%");
    assert_eq!(Command::Paste.default_key(), "p");
    assert_eq!(Command::at(12), Command::SetTenths(9));
    assert_eq!(Command::Up.key(&config), "a");
}

#[test]
fn side_colors_stay() {
    let mut state = ProgramState::new(
        SelectionType::RGB,
        OutputType::RGB,
        "#ff0000",
        ColorNameStandard::X11,
        vec![OutputType::RGB],
        Config::empty(),
        vec![ColorRepresentation::from_integer(1)],
        vec![ColorRepresentation::from_integer(2), ColorRepresentation::from_integer(3)],
        &LOW,
    )
    .unwrap();
    for command in [Command::SetMaxValue, Command::Down, Command::CycleSelectionType, Command::ChangeOutput] {
        press(&mut state, command);
    }
    assert_eq!(state.comparison_colors.len(), 1);
    assert_eq!(state.mix_colors[1].integer(), 3);
    assert_eq!(state.clr_std, ColorNameStandard::X11);
}
