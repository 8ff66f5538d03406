//! The keys of the picker and what each of them does to a session.
//!
//! A key press is looked up in the keymap, which gives a command. `apply`
//! makes the change that the command stands for and says what the caller has
//! to do beyond it: clear the screen, ring the bell, ask the user for a text,
//! use the clipboard, or end the session.

use vstd::prelude::*;
use crate::color_representation::{
    formatted_output_clr_spec, output_clr_spec, parse_color, ColorRepresentation, Rgba,
};
use crate::config::{Config, ConfigKeybind};
use crate::error::ParseError;
use crate::math::UNIT;
use crate::output_type::{order_by_name_spec, output_views, OutputType};
use crate::state::{ProgramState, SelectionType};
use crate::text::{chars_eq, parse_decimal, parse_number_spec, to_chars};

verus! {

/// What a key press can ask of the loop that reads the keys.
#[derive(Clone, Copy, Debug, PartialEq, Eq, Structural)]
pub enum Action {
    /// End the session.
    Break,
}

/// What a key can be bound to.
#[derive(Clone, Copy, Debug, PartialEq, Eq, Structural)]
pub enum Command {
    /// End the session.
    Quit,
    /// Copy the colour to the clipboard and end the session.
    QuitAndCopy,
    /// Set the selected channel to its largest value.
    SetMaxValue,
    /// Set the selected channel to so many tenths of its largest value;
    /// more than nine tenths count as nine.
    SetTenths(u8),
    /// Raise the selected channel by one step.
    IncreaseValue,
    /// Lower the selected channel by one step.
    DecreaseValue,
    /// Raise the selected channel by ten steps.
    IncreaseValue10,
    /// Lower the selected channel by ten steps.
    DecreaseValue10,
    /// Select the channel above.
    Up,
    /// Select the channel below.
    Down,
    /// Edit the next colour model.
    CycleSelectionType,
    /// Ask for the exact value of the selected channel.
    SetValue,
    /// Show the colour in the next output encoding of the cycle.
    ChangeOutput,
    /// Let the user choose an output encoding.
    SelectOutput,
    /// Ask for a new colour.
    InputNewColor,
    /// Copy the colour to the clipboard in the form that names its encoding.
    Copy,
    /// Copy the colour to the clipboard as bare numbers.
    CopyRaw,
    /// Take the colour from the clipboard.
    Paste,
    /// Switch the editing of alpha on or off.
    ToggleAlpha,
}

/// The number of commands that have a name and a key.
pub const COMMAND_COUNT: usize = 28;

/// The commands in the order in which they are bound to their keys. Where
/// two commands have one key, the later one has it.
pub open spec fn command_at(i: int) -> Command {
    if i == 0 {
        Command::Quit
    } else if i == 1 {
        Command::QuitAndCopy
    } else if i == 2 {
        Command::SetMaxValue
    } else if i == 3 {
        Command::SetTenths(0)
    } else if i == 4 {
        Command::SetTenths(1)
    } else if i == 5 {
        Command::SetTenths(2)
    } else if i == 6 {
        Command::SetTenths(3)
    } else if i == 7 {
        Command::SetTenths(4)
    } else if i == 8 {
        Command::SetTenths(5)
    } else if i == 9 {
        Command::SetTenths(6)
    } else if i == 10 {
        Command::SetTenths(7)
    } else if i == 11 {
        Command::SetTenths(8)
    } else if i == 12 {
        Command::SetTenths(9)
    } else if i == 13 {
        Command::IncreaseValue
    } else if i == 14 {
        Command::DecreaseValue
    } else if i == 15 {
        Command::IncreaseValue10
    } else if i == 16 {
        Command::DecreaseValue10
    } else if i == 17 {
        Command::Up
    } else if i == 18 {
        Command::Down
    } else if i == 19 {
        Command::CycleSelectionType
    } else if i == 20 {
        Command::SetValue
    } else if i == 21 {
        Command::ChangeOutput
    } else if i == 22 {
        Command::SelectOutput
    } else if i == 23 {
        Command::InputNewColor
    } else if i == 24 {
        Command::Copy
    } else if i == 25 {
        Command::CopyRaw
    } else if i == 26 {
        Command::Paste
    } else {
        Command::ToggleAlpha
    }
}

/// The name by which the configuration binds a command.
pub open spec fn action_name(command: Command) -> Seq<char> {
    match command {
        Command::Quit => "quit"@,
        Command::QuitAndCopy => "quit-and-copy"@,
        Command::SetMaxValue => "set-max-value"@,
        Command::SetTenths(0) => "00%"@,
        Command::SetTenths(1) => "10%"@,
        Command::SetTenths(2) => "20%"@,
        Command::SetTenths(3) => "30%"@,
        Command::SetTenths(4) => "40%"@,
        Command::SetTenths(5) => "50%"@,
        Command::SetTenths(6) => "60%"@,
        Command::SetTenths(7) => "70%"@,
        Command::SetTenths(8) => "80%"@,
        Command::SetTenths(_) => "90%"@,
        Command::IncreaseValue => "increase-value"@,
        Command::DecreaseValue => "decrease-value"@,
        Command::IncreaseValue10 => "increase-value-10"@,
        Command::DecreaseValue10 => "decrease-value-10"@,
        Command::Up => "up"@,
        Command::Down => "down"@,
        Command::CycleSelectionType => "cycle-selection-type"@,
        Command::SetValue => "set-value"@,
        Command::ChangeOutput => "change-output"@,
        Command::SelectOutput => "select-output"@,
        Command::InputNewColor => "input-new-color"@,
        Command::Copy => "copy"@,
        Command::CopyRaw => "copy-raw"@,
        Command::Paste => "paste"@,
        Command::ToggleAlpha => "toggle-alpha"@,
    }
}

/// The key of a command where the configuration names none.
pub open spec fn default_key(command: Command) -> Seq<char> {
    match command {
        Command::Quit => "q"@,
        Command::QuitAndCopy => "\n"@,
        Command::SetMaxValue => "$"@,
        Command::SetTenths(0) => "0"@,
        Command::SetTenths(1) => "1"@,
        Command::SetTenths(2) => "2"@,
        Command::SetTenths(3) => "3"@,
        Command::SetTenths(4) => "4"@,
        Command::SetTenths(5) => "5"@,
        Command::SetTenths(6) => "6"@,
        Command::SetTenths(7) => "7"@,
        Command::SetTenths(8) => "8"@,
        Command::SetTenths(_) => "9"@,
        Command::IncreaseValue => "l"@,
        Command::DecreaseValue => "h"@,
        Command::IncreaseValue10 => "L"@,
        Command::DecreaseValue10 => "H"@,
        Command::Up => "k"@,
        Command::Down => "j"@,
        Command::CycleSelectionType => "i"@,
        Command::SetValue => "I"@,
        Command::ChangeOutput => "o"@,
        Command::SelectOutput => "O"@,
        Command::InputNewColor => "n"@,
        Command::Copy => "y"@,
        Command::CopyRaw => "Y"@,
        Command::Paste => "p"@,
        Command::ToggleAlpha => "a"@,
    }
}

/// The key that the last of the first `upto` bindings of the configuration
/// gives to the action `name`, if one of them names it.
pub open spec fn bound_key(keybinds: Seq<ConfigKeybind>, name: Seq<char>, upto: int) -> Option<
    Seq<char>,
>
    decreases upto,
{
    if upto <= 0 || upto > keybinds.len() {
        None
    } else if keybinds[upto - 1].action@ == name {
        Some(keybinds[upto - 1].key@)
    } else {
        bound_key(keybinds, name, upto - 1)
    }
}

/// The key of a command under a configuration: the key that the
/// configuration binds to it, or else its default key.
pub open spec fn key_of(config: Config, command: Command) -> Seq<char> {
    match config.keybinds {
        Some(keybinds) => match bound_key(keybinds@, action_name(command), keybinds.len() as int) {
            Some(key) => key,
            None => default_key(command),
        },
        None => default_key(command),
    }
}

/// One key and the command that it calls.
pub struct KeyBinding {
    pub key: String,
    pub command: Command,
}

/// The keys of the picker.
pub struct Keymap {
    pub bindings: Vec<KeyBinding>,
}

/// The command of the last of the first `upto` bindings whose key is `key`.
pub open spec fn last_binding(bindings: Seq<KeyBinding>, key: Seq<char>, upto: int) -> Option<
    Command,
>
    decreases upto,
{
    if upto <= 0 || upto > bindings.len() {
        None
    } else if bindings[upto - 1].key@ == key {
        Some(bindings[upto - 1].command)
    } else {
        last_binding(bindings, key, upto - 1)
    }
}

/// The command that a key calls under a configuration: the last of the
/// commands, in their order, whose key it is.
pub open spec fn command_of_key(config: Config, key: Seq<char>, upto: int) -> Option<Command>
    decreases upto,
{
    if upto <= 0 || upto > COMMAND_COUNT {
        None
    } else if key_of(config, command_at(upto - 1)) == key {
        Some(command_at(upto - 1))
    } else {
        command_of_key(config, key, upto - 1)
    }
}

impl Command {
    /// The command at a place of the binding order.
    pub fn at(i: usize) -> (command: Command)
        requires
            i < COMMAND_COUNT,
        ensures
            command == command_at(i as int),
    {
        if i == 0 {
            Command::Quit
        } else if i == 1 {
            Command::QuitAndCopy
        } else if i == 2 {
            Command::SetMaxValue
        } else if i == 3 {
            Command::SetTenths(0)
        } else if i == 4 {
            Command::SetTenths(1)
        } else if i == 5 {
            Command::SetTenths(2)
        } else if i == 6 {
            Command::SetTenths(3)
        } else if i == 7 {
            Command::SetTenths(4)
        } else if i == 8 {
            Command::SetTenths(5)
        } else if i == 9 {
            Command::SetTenths(6)
        } else if i == 10 {
            Command::SetTenths(7)
        } else if i == 11 {
            Command::SetTenths(8)
        } else if i == 12 {
            Command::SetTenths(9)
        } else if i == 13 {
            Command::IncreaseValue
        } else if i == 14 {
            Command::DecreaseValue
        } else if i == 15 {
            Command::IncreaseValue10
        } else if i == 16 {
            Command::DecreaseValue10
        } else if i == 17 {
            Command::Up
        } else if i == 18 {
            Command::Down
        } else if i == 19 {
            Command::CycleSelectionType
        } else if i == 20 {
            Command::SetValue
        } else if i == 21 {
            Command::ChangeOutput
        } else if i == 22 {
            Command::SelectOutput
        } else if i == 23 {
            Command::InputNewColor
        } else if i == 24 {
            Command::Copy
        } else if i == 25 {
            Command::CopyRaw
        } else if i == 26 {
            Command::Paste
        } else {
            Command::ToggleAlpha
        }
    }

    /// The name by which the configuration binds the command.
    pub fn name(&self) -> (text: &'static str)
        ensures
            text@ == action_name(*self),
    {
        let command: Command = *self;
        match command {
            Command::Quit => "quit",
            Command::QuitAndCopy => "quit-and-copy",
            Command::SetMaxValue => "set-max-value",
            Command::SetTenths(0) => "00%",
            Command::SetTenths(1) => "10%",
            Command::SetTenths(2) => "20%",
            Command::SetTenths(3) => "30%",
            Command::SetTenths(4) => "40%",
            Command::SetTenths(5) => "50%",
            Command::SetTenths(6) => "60%",
            Command::SetTenths(7) => "70%",
            Command::SetTenths(8) => "80%",
            Command::SetTenths(_) => "90%",
            Command::IncreaseValue => "increase-value",
            Command::DecreaseValue => "decrease-value",
            Command::IncreaseValue10 => "increase-value-10",
            Command::DecreaseValue10 => "decrease-value-10",
            Command::Up => "up",
            Command::Down => "down",
            Command::CycleSelectionType => "cycle-selection-type",
            Command::SetValue => "set-value",
            Command::ChangeOutput => "change-output",
            Command::SelectOutput => "select-output",
            Command::InputNewColor => "input-new-color",
            Command::Copy => "copy",
            Command::CopyRaw => "copy-raw",
            Command::Paste => "paste",
            Command::ToggleAlpha => "toggle-alpha",
        }
    }

    /// The key of the command where the configuration names none.
    pub fn default_key(&self) -> (text: &'static str)
        ensures
            text@ == default_key(*self),
    {
        let command: Command = *self;
        match command {
            Command::Quit => "q",
            Command::QuitAndCopy => "\n",
            Command::SetMaxValue => "$",
            Command::SetTenths(0) => "0",
            Command::SetTenths(1) => "1",
            Command::SetTenths(2) => "2",
            Command::SetTenths(3) => "3",
            Command::SetTenths(4) => "4",
            Command::SetTenths(5) => "5",
            Command::SetTenths(6) => "6",
            Command::SetTenths(7) => "7",
            Command::SetTenths(8) => "8",
            Command::SetTenths(_) => "9",
            Command::IncreaseValue => "l",
            Command::DecreaseValue => "h",
            Command::IncreaseValue10 => "L",
            Command::DecreaseValue10 => "H",
            Command::Up => "k",
            Command::Down => "j",
            Command::CycleSelectionType => "i",
            Command::SetValue => "I",
            Command::ChangeOutput => "o",
            Command::SelectOutput => "O",
            Command::InputNewColor => "n",
            Command::Copy => "y",
            Command::CopyRaw => "Y",
            Command::Paste => "p",
            Command::ToggleAlpha => "a",
        }
    }

    /// The key of the command under a configuration.
    #[verifier::loop_isolation(false)]
    pub fn key(&self, config: &Config) -> (key: String)
        ensures
            key@ == key_of(*config, *self),
    {
        match &config.keybinds {
            Some(keybinds) => {
                let name: Vec<char> = to_chars(self.name());
                let mut i: usize = keybinds.len();
                while i > 0
                    invariant
                        i <= keybinds.len(),
                        name@ == action_name(*self),
                        bound_key(keybinds@, name@, keybinds.len() as int) == bound_key(
                            keybinds@,
                            name@,
                            i as int,
                        ),
                    decreases i,
                {
                    let action: Vec<char> = to_chars(keybinds[i - 1].action.as_str());
                    if chars_eq(&action, &name) {
                        return keybinds[i - 1].key.clone();
                    }
                    i -= 1;
                }
                self.default_key().to_owned()
            },
            None => self.default_key().to_owned(),
        }
    }
}

/// The key of every command under a configuration, in the binding order of
/// the commands: each with the name of its action.
pub fn read_keymap_from_config(config: &Config) -> (keys: Vec<ConfigKeybind>)
    ensures
        keys.len() == COMMAND_COUNT,
        forall|i: int|
            0 <= i < COMMAND_COUNT ==> (#[trigger] keys[i]).action@ == action_name(command_at(i))
                && keys[i].key@ == key_of(*config, command_at(i)),
{
    let mut keys: Vec<ConfigKeybind> = Vec::new();
    let mut i: usize = 0;
    while i < COMMAND_COUNT
        invariant
            i <= COMMAND_COUNT,
            keys.len() == i,
            forall|j: int|
                0 <= j < i ==> (#[trigger] keys[j]).action@ == action_name(command_at(j))
                    && keys[j].key@ == key_of(*config, command_at(j)),
        decreases COMMAND_COUNT - i,
    {
        let command: Command = Command::at(i);
        keys.push(ConfigKeybind { action: command.name().to_owned(), key: command.key(config) });
        i += 1;
    }
    keys
}

/// The keymap of a configuration: every command under its key, in the
/// binding order of the commands.
pub fn init_keymaps(config: &Config) -> (keymap: Keymap)
    ensures
        keymap.bindings.len() == COMMAND_COUNT,
        forall|i: int|
            0 <= i < COMMAND_COUNT ==> (#[trigger] keymap.bindings[i]).command == command_at(i)
                && keymap.bindings[i].key@ == key_of(*config, command_at(i)),
        forall|key: Seq<char>| #[trigger]
            last_binding(keymap.bindings@, key, COMMAND_COUNT as int) == command_of_key(
                *config,
                key,
                COMMAND_COUNT as int,
            ),
{
    let mut bindings: Vec<KeyBinding> = Vec::new();
    let mut i: usize = 0;
    while i < COMMAND_COUNT
        invariant
            i <= COMMAND_COUNT,
            bindings.len() == i,
            forall|j: int|
                0 <= j < i ==> (#[trigger] bindings[j]).command == command_at(j) && bindings[j].key@
                    == key_of(*config, command_at(j)),
        decreases COMMAND_COUNT - i,
    {
        let command: Command = Command::at(i);
        bindings.push(KeyBinding { key: command.key(config), command });
        i += 1;
    }
    proof {
        assert forall|key: Seq<char>| #[trigger]
            last_binding(bindings@, key, COMMAND_COUNT as int) == command_of_key(
                *config,
                key,
                COMMAND_COUNT as int,
            ) by {
            lemma_bindings_agree(bindings@, *config, key, COMMAND_COUNT as int);
        }
    }
    Keymap { bindings }
}

proof fn lemma_bindings_agree(bindings: Seq<KeyBinding>, config: Config, key: Seq<char>, upto: int)
    requires
        bindings.len() == COMMAND_COUNT,
        0 <= upto <= COMMAND_COUNT,
        forall|j: int|
            0 <= j < COMMAND_COUNT ==> (#[trigger] bindings[j]).command == command_at(j)
                && bindings[j].key@ == key_of(config, command_at(j)),
    ensures
        last_binding(bindings, key, upto) == command_of_key(config, key, upto),
    decreases upto,
{
    if upto > 0 {
        lemma_bindings_agree(bindings, config, key, upto - 1);
        assert(bindings[upto - 1].command == command_at(upto - 1));
    }
}

impl Keymap {
    /// The command that a key calls: that of the last binding of the key.
    pub fn lookup(&self, key: &str) -> (command: Option<Command>)
        ensures
            command == last_binding(self.bindings@, key@, self.bindings.len() as int),
    {
        let wanted: Vec<char> = to_chars(key);
        let mut i: usize = self.bindings.len();
        while i > 0
            invariant
                i <= self.bindings.len(),
                wanted@ == key@,
                last_binding(self.bindings@, key@, self.bindings.len() as int) == last_binding(
                    self.bindings@,
                    key@,
                    i as int,
                ),
            decreases i,
        {
            let bound: Vec<char> = to_chars(self.bindings[i - 1].key.as_str());
            if chars_eq(&bound, &wanted) {
                return Some(self.bindings[i - 1].command);
            }
            i -= 1;
        }
        None
    }
}

/// What the caller has to do for the user after a command.
#[derive(Debug)]
pub enum Request {
    /// Nothing.
    Nothing,
    /// Write the text to the clipboard.
    Copy(String),
    /// Ask for the exact value of the channel with the given letter, and
    /// hand the answer to `set_value`.
    SetValue(char),
    /// Ask for a colour, and hand the answer to `input_new_color`.
    NewColor,
    /// Read the clipboard, and hand its text to `input_new_color`.
    Paste,
    /// Let the user choose an output encoding, and hand the choice to one
    /// of `select_output`, `select_custom_format`, `select_all_outputs` and
    /// `select_output_cycle`.
    SelectOutput,
}

/// What a command asks of the caller.
#[derive(Debug)]
pub struct Step {
    /// Whether the session ends.
    pub action: Option<Action>,
    /// Whether the whole screen has to be cleared.
    pub clear: bool,
    /// Whether the bell rings: a value was out of range and was limited.
    pub bell: bool,
    /// What has to be done for the user.
    pub request: Request,
}

impl Step {
    /// Whether the step asks for nothing at all.
    pub open spec fn is_silent(self) -> bool {
        self.action is None && !self.clear && !self.bell && self.request is Nothing
    }
}

/// The place of the selected channel among the values of a model: the
/// selected channel itself, or 0 in the 256-colour palette, which has one
/// channel.
pub open spec fn selected_place(selection_type: SelectionType, selected_item: u8) -> int {
    (selected_item as int) % selection_type.channel_count()
}

/// The value that an editing command asks for the selected channel, if the
/// command is one.
pub open spec fn command_value(
    command: Command,
    selection_type: SelectionType,
    c: Rgba,
    selected_item: u8,
) -> Option<int> {
    let place = selected_place(selection_type, selected_item);
    let max = selection_type.max_values_spec()[place] as int;
    let current = selection_type.colors_spec(c, selected_item)[place];
    match command {
        Command::SetMaxValue => Some(max),
        Command::SetTenths(n) => Some(
            max * (if n > 9 {
                9
            } else {
                n as int
            }) / 10,
        ),
        Command::IncreaseValue => Some(current + UNIT),
        Command::DecreaseValue => Some(current - UNIT),
        Command::IncreaseValue10 => Some(current + 10 * UNIT),
        Command::DecreaseValue10 => Some(current - 10 * UNIT),
        _ => None,
    }
}

/// The last channel that can be selected: the last of the model without
/// alpha, or alpha where it is edited.
pub open spec fn last_channel(selection_type: SelectionType, enable_alpha: bool) -> int {
    selection_type.channel_count() - 2 + if enable_alpha {
        1int
    } else {
        0int
    }
}

/// The channel above the selected one; above the first comes the last.
pub open spec fn moved_up(selection_type: SelectionType, selected_item: u8, enable_alpha: bool)
    -> int {
    if selection_type == SelectionType::ANSI256 {
        selected_item as int
    } else if selected_item == 0 {
        last_channel(selection_type, enable_alpha)
    } else {
        selected_item - 1
    }
}

/// The channel below the selected one; below the last comes the first.
pub open spec fn moved_down(selection_type: SelectionType, selected_item: u8, enable_alpha: bool)
    -> int {
    if selection_type == SelectionType::ANSI256 {
        selected_item as int
    } else if selected_item >= last_channel(selection_type, enable_alpha) {
        0
    } else {
        selected_item + 1
    }
}

/// Whether a change of the model enters or leaves the 256-colour palette.
pub open spec fn crosses_palette(from: SelectionType) -> bool {
    from == SelectionType::ANSI256 || from.next_spec() == SelectionType::ANSI256
}

/// Whether `after` differs from `before` in nothing but the selected channel.
pub open spec fn only_selection_moved(before: ProgramState, after: ProgramState) -> bool {
    &&& after.curr_color == before.curr_color
    &&& after.selection_type == before.selection_type
    &&& after.enable_alpha == before.enable_alpha
    &&& after.same_output(before)
    &&& after.same_setting(before)
}

/// What a command makes of a session, and what it asks of the caller.
pub open spec fn transition(
    before: ProgramState,
    command: Command,
    low_rgb: [[u8; 3]; 16],
    after: ProgramState,
    step: Step,
) -> bool {
    let place = selected_place(before.selection_type, before.selected_item);
    match command {
        Command::Quit => after == before && step.action == Some(Action::Break) && !step.clear
            && !step.bell && step.request is Nothing,
        Command::QuitAndCopy => after == before && step.action == Some(Action::Break) && !step.clear
            && !step.bell && (step.request matches Request::Copy(text) && text@
            == formatted_output_clr_spec(before.curr_color@, before.output_type@, before.enable_alpha)),
        Command::SetMaxValue
        | Command::SetTenths(_)
        | Command::IncreaseValue
        | Command::DecreaseValue
        | Command::IncreaseValue10
        | Command::DecreaseValue10 => {
            let value = command_value(
                command,
                before.selection_type,
                before.curr_color@,
                before.selected_item,
            )->0;
            &&& after.curr_color@ == before.selection_type.edited_color(
                before.curr_color@,
                place,
                value,
                low_rgb,
            )
            &&& after.selected_item == if before.selection_type == SelectionType::ANSI256 {
                crate::state::palette_index(value)
            } else {
                before.selected_item
            }
            &&& after.same_session(before)
            &&& step.bell == before.selection_type.edit_rings(before.curr_color@, place, value)
            &&& step.action is None
            &&& !step.clear
            &&& step.request is Nothing
        },
        Command::Up => only_selection_moved(before, after) && after.selected_item == moved_up(
            before.selection_type,
            before.selected_item,
            before.enable_alpha,
        ) && step.is_silent(),
        Command::Down => only_selection_moved(before, after) && after.selected_item == moved_down(
            before.selection_type,
            before.selected_item,
            before.enable_alpha,
        ) && step.is_silent(),
        Command::CycleSelectionType => {
            &&& after.selection_type == before.selection_type.next_spec()
            &&& after.selected_item == if crosses_palette(before.selection_type) {
                0
            } else {
                before.selected_item
            }
            &&& after.curr_color == before.curr_color
            &&& after.enable_alpha == before.enable_alpha
            &&& after.same_output(before)
            &&& after.same_setting(before)
            &&& step.clear == crosses_palette(before.selection_type)
            &&& step.action is None
            &&& !step.bell
            &&& step.request is Nothing
        },
        Command::SetValue => after == before && step.action is None && !step.clear && !step.bell
            && step.request == Request::SetValue(
            if before.selection_type == SelectionType::ANSI256 {
                'e'
            } else {
                before.selection_type.labels()[before.selected_item as int]
            },
        ),
        Command::ChangeOutput => {
            &&& after.output_idx == before.next_output_idx()
            &&& after.output_type@ == before.output_order[before.next_output_idx()]@
            &&& after.output_order == before.output_order
            &&& after.same_color(before)
            &&& after.same_setting(before)
            &&& step.clear
            &&& step.action is None
            &&& !step.bell
            &&& step.request is Nothing
        },
        Command::SelectOutput => after == before && step.action is None && !step.clear && !step.bell
            && step.request is SelectOutput,
        Command::InputNewColor => after == before && step.action is None && !step.clear && !step.bell
            && step.request is NewColor,
        Command::Copy => after == before && step.action is None && !step.clear && !step.bell && (
        step.request matches Request::Copy(text) && text@ == formatted_output_clr_spec(
            before.curr_color@,
            before.output_type@,
            before.enable_alpha,
        )),
        Command::CopyRaw => after == before && step.action is None && !step.clear && !step.bell && (
        step.request matches Request::Copy(text) && text@ == output_clr_spec(
            before.curr_color@,
            before.output_type@,
            before.enable_alpha,
        )),
        Command::Paste => after == before && step.action is None && !step.clear && !step.bell
            && step.request is Paste,
        Command::ToggleAlpha => if before.selection_type == SelectionType::ANSI256 {
            after == before && step.is_silent()
        } else {
            &&& after.enable_alpha == !before.enable_alpha
            &&& after.curr_color == before.curr_color
            &&& after.selected_item == before.selected_item
            &&& after.selection_type == before.selection_type
            &&& after.same_output(before)
            &&& after.same_setting(before)
            &&& step.clear
            &&& step.action is None
            &&& !step.bell
            &&& step.request is Nothing
        },
    }
}

fn quiet(request: Request) -> (step: Step)
    ensures
        step.action is None,
        !step.clear,
        !step.bell,
        step.request == request,
{
    Step { action: None, clear: false, bell: false, request }
}

fn edit_value(program_state: &ProgramState, command: Command) -> (value: i64)
    requires
        program_state.wf(),
        command_value(
            command,
            program_state.selection_type,
            program_state.curr_color@,
            program_state.selected_item,
        ) is Some,
    ensures
        value == command_value(
            command,
            program_state.selection_type,
            program_state.curr_color@,
            program_state.selected_item,
        )->0,
        -1_000_000 <= value <= 5_000_000,
{
    let selection_type: SelectionType = program_state.selection_type;
    let max_values: Vec<i64> = selection_type.max_values();
    let colors: Vec<i64> = selection_type.colors(program_state);
    let place: usize = match selection_type {
        SelectionType::ANSI256 => 0,
        _ => program_state.selected_item as usize,
    };
    assert(place == selected_place(selection_type, program_state.selected_item));
    let increments: Vec<i64> = selection_type.increments();
    let max: i64 = max_values[place];
    let current: i64 = colors[place];
    let inc: i64 = increments[place];
    assert(0 <= max <= 3_600_000);
    match command {
        Command::SetMaxValue => max,
        Command::SetTenths(n) => max * (if n > 9 {
            9
        } else {
            n as i64
        }) / 10,
        Command::IncreaseValue => current + inc,
        Command::DecreaseValue => current - inc,
        Command::IncreaseValue10 => current + inc * 10,
        _ => current - inc * 10,
    }
}

fn edit(program_state: &mut ProgramState, command: Command, low_rgb: &[[u8; 3]; 16]) -> (step:
    Step)
    requires
        old(program_state).wf(),
        command_value(
            command,
            old(program_state).selection_type,
            old(program_state).curr_color@,
            old(program_state).selected_item,
        ) is Some,
    ensures
        final(program_state).wf(),
        ({
            let value = command_value(
                command,
                old(program_state).selection_type,
                old(program_state).curr_color@,
                old(program_state).selected_item,
            )->0;
            let place = selected_place(
                old(program_state).selection_type,
                old(program_state).selected_item,
            );
            &&& final(program_state).curr_color@ == old(program_state).selection_type.edited_color(
                old(program_state).curr_color@,
                place,
                value,
                *low_rgb,
            )
            &&& final(program_state).selected_item == if old(program_state).selection_type
                == SelectionType::ANSI256 {
                crate::state::palette_index(value)
            } else {
                old(program_state).selected_item
            }
            &&& final(program_state).same_session(*old(program_state))
            &&& step.bell == old(program_state).selection_type.edit_rings(
                old(program_state).curr_color@,
                place,
                value,
            )
        }),
        step.action is None,
        !step.clear,
        step.request is Nothing,
{
    let value: i64 = edit_value(program_state, command);
    let selection_type: SelectionType = program_state.selection_type;
    assert(selection_type != SelectionType::ANSI256 ==> selected_place(
        selection_type,
        program_state.selected_item,
    ) == program_state.selected_item);
    let bell: bool = selection_type.modify_color_based_on_selected_item(
        program_state,
        value,
        low_rgb,
    );
    Step { action: None, clear: false, bell, request: Request::Nothing }
}

/// Makes the change that a command stands for, and says what the caller has
/// to do beyond it. `low_rgb` holds the first 16 entries of the 256-colour
/// palette, which only the edits of that model read.
pub fn apply(program_state: &mut ProgramState, command: Command, low_rgb: &[[u8; 3]; 16]) -> (step:
    Step)
    requires
        old(program_state).wf(),
    ensures
        final(program_state).wf(),
        transition(*old(program_state), command, *low_rgb, *final(program_state), step),
        step.action is Some <==> command == Command::Quit || command == Command::QuitAndCopy,
{
    match command {
        Command::Quit => Step {
            action: Some(Action::Break),
            clear: false,
            bell: false,
            request: Request::Nothing,
        },
        Command::QuitAndCopy => Step {
            action: Some(Action::Break),
            clear: false,
            bell: false,
            request: Request::Copy(
                program_state.output_type.render_output(
                    &program_state.curr_color,
                    program_state.enable_alpha,
                ),
            ),
        },
        Command::SetMaxValue
        | Command::SetTenths(_)
        | Command::IncreaseValue
        | Command::DecreaseValue
        | Command::IncreaseValue10
        | Command::DecreaseValue10 => edit(program_state, command, low_rgb),
        Command::Up => {
            match program_state.selection_type {
                SelectionType::ANSI256 => {},
                _ => {
                    let count: u8 = program_state.selection_type.max_values().len() as u8;
                    program_state.selected_item = if program_state.selected_item == 0 {
                        count - 2 + if program_state.enable_alpha {
                            1
                        } else {
                            0
                        }
                    } else {
                        program_state.selected_item - 1
                    };
                },
            }
            quiet(Request::Nothing)
        },
        Command::Down => {
            match program_state.selection_type {
                SelectionType::ANSI256 => {},
                _ => {
                    let count: u8 = program_state.selection_type.max_values().len() as u8;
                    let last: u8 = count - 2 + if program_state.enable_alpha {
                        1
                    } else {
                        0
                    };
                    program_state.selected_item = if program_state.selected_item >= last {
                        0
                    } else {
                        program_state.selected_item + 1
                    };
                },
            }
            quiet(Request::Nothing)
        },
        Command::CycleSelectionType => {
            let from: SelectionType = program_state.selection_type;
            let to: SelectionType = from.next();
            let crosses: bool = from == SelectionType::ANSI256 || to == SelectionType::ANSI256;
            if crosses {
                program_state.selected_item = 0;
            }
            program_state.selection_type = to;
            Step { action: None, clear: crosses, bell: false, request: Request::Nothing }
        },
        Command::SetValue => quiet(
            Request::SetValue(
                program_state.selection_type.label_from_selected_item(program_state.selected_item),
            ),
        ),
        Command::ChangeOutput => {
            program_state.next_output();
            Step { action: None, clear: true, bell: false, request: Request::Nothing }
        },
        Command::SelectOutput => quiet(Request::SelectOutput),
        Command::InputNewColor => quiet(Request::NewColor),
        Command::Copy => quiet(
            Request::Copy(
                program_state.curr_color.get_formatted_output_clr(
                    &program_state.output_type,
                    program_state.enable_alpha,
                ),
            ),
        ),
        Command::CopyRaw => quiet(
            Request::Copy(
                program_state.curr_color.get_output_clr(
                    &program_state.output_type,
                    program_state.enable_alpha,
                ),
            ),
        ),
        Command::Paste => quiet(Request::Paste),
        Command::ToggleAlpha => {
            match program_state.selection_type {
                SelectionType::ANSI256 => quiet(Request::Nothing),
                _ => {
                    program_state.enable_alpha = !program_state.enable_alpha;
                    Step { action: None, clear: true, bell: false, request: Request::Nothing }
                },
            }
        },
    }
}

/// Sets the selected channel to the number that the user typed. A text that
/// is no number is an error and leaves the session as it was. The result
/// says whether the bell rings.
pub fn set_value(program_state: &mut ProgramState, text: &str, low_rgb: &[[u8; 3]; 16]) -> (r:
    Result<bool, ParseError>)
    requires
        old(program_state).wf(),
    ensures
        final(program_state).wf(),
        match r {
            Ok(bell) => {
                let value = parse_number_spec(text@)->0 as int;
                let place = selected_place(
                    old(program_state).selection_type,
                    old(program_state).selected_item,
                );
                &&& parse_number_spec(text@) is Some
                &&& final(program_state).curr_color@ == old(program_state).selection_type.edited_color(old(program_state).curr_color@, place, value, *low_rgb)
                &&& final(program_state).selected_item == if old(program_state).selection_type
                    == SelectionType::ANSI256 {
                    crate::state::palette_index(value)
                } else {
                    old(program_state).selected_item
                }
                &&& final(program_state).same_session(*old(program_state))
                &&& bell == old(program_state).selection_type.edit_rings(
                    old(program_state).curr_color@,
                    place,
                    value,
                )
            },
            Err(e) => parse_number_spec(text@) is None && e == ParseError::InvalidNumber && *final(program_state) == *old(program_state),
        },
{
    let chars: Vec<char> = to_chars(text);
    match parse_decimal(&chars) {
        Some(value) => {
            let selection_type: SelectionType = program_state.selection_type;
            Ok(selection_type.modify_color_based_on_selected_item(program_state, value, low_rgb))
        },
        None => Err(ParseError::InvalidNumber),
    }
}

/// Replaces the colour of the session by the colour that a text stands for.
/// A text that is no colour is an error and leaves the session as it was.
pub fn input_new_color(program_state: &mut ProgramState, text: &str, term: &[[u8; 3]; 16]) -> (r:
    Result<(), ParseError>)
    requires
        old(program_state).wf(),
    ensures
        final(program_state).wf(),
        match r {
            Ok(_) => {
                &&& parse_color(text@, old(program_state).clr_std, *term) == Ok::<
                    Rgba,
                    ParseError,
                >(final(program_state).curr_color@)
                &&& final(program_state).selected_item == old(program_state).selected_item
                &&& final(program_state).same_session(*old(program_state))
            },
            Err(e) => parse_color(text@, old(program_state).clr_std, *term) == Err::<
                Rgba,
                ParseError,
            >(e) && *final(program_state) == *old(program_state),
        },
{
    match ColorRepresentation::from_color(text, &program_state.clr_std, term) {
        Ok(color) => {
            program_state.curr_color = color;
            Ok(())
        },
        Err(e) => Err(e),
    }
}

/// Shows the colour in the given output encoding. The cycle keeps its
/// place.
pub fn select_output(program_state: &mut ProgramState, output_type: OutputType)
    ensures
        old(program_state).wf() ==> final(program_state).wf(),
        final(program_state).output_type == output_type,
        final(program_state).output_idx == old(program_state).output_idx,
        final(program_state).output_order == old(program_state).output_order,
        final(program_state).same_color(*old(program_state)),
        final(program_state).same_setting(*old(program_state)),
{
    program_state.output_type = output_type;
}

/// Shows the colour as a template says, and starts the cycle anew.
pub fn select_custom_format(program_state: &mut ProgramState, fmt: String)
    ensures
        old(program_state).wf() ==> final(program_state).wf(),
        final(program_state).output_type == OutputType::CUSTOM(fmt),
        final(program_state).output_idx == 0,
        final(program_state).output_order == old(program_state).output_order,
        final(program_state).same_color(*old(program_state)),
        final(program_state).same_setting(*old(program_state)),
{
    program_state.output_idx = 0;
    program_state.output_type = OutputType::CUSTOM(fmt);
}

/// Shows the colour in all encodings at once.
pub fn select_all_outputs(program_state: &mut ProgramState)
    ensures
        old(program_state).wf() ==> final(program_state).wf(),
        final(program_state).output_type == OutputType::ALL,
        final(program_state).output_idx == old(program_state).output_idx,
        final(program_state).output_order == old(program_state).output_order,
        final(program_state).same_color(*old(program_state)),
        final(program_state).same_setting(*old(program_state)),
{
    program_state.output_type = OutputType::ALL;
}

/// Takes the cycle called `name` from the configuration and moves one step
/// into it. The result says whether the configuration has such a cycle and
/// the cycle is not empty; if not, the session stays as it was.
pub fn select_output_cycle(program_state: &mut ProgramState, name: &str) -> (found: bool)
    requires
        old(program_state).wf(),
    ensures
        final(program_state).wf(),
        found == (order_by_name_spec(old(program_state).config, name@) matches Some(order)
            && order.len() > 0),
        !found ==> *final(program_state) == *old(program_state),
        found ==> {
            let order = order_by_name_spec(old(program_state).config, name@)->0;
            let place = if old(program_state).output_type@ is ALL {
                0int
            } else {
                1int % (order.len() as int)
            };
            &&& output_views(final(program_state).output_order@) == order
            &&& final(program_state).output_idx == place
            &&& final(program_state).output_type@ == order[place]
            &&& final(program_state).same_color(*old(program_state))
            &&& final(program_state).same_setting(*old(program_state))
        },
{
    match OutputType::get_order_by_name(&program_state.config, name) {
        Some(order) => {
            if order.len() == 0 {
                return false;
            }
            program_state.output_order = order;
            program_state.output_idx = 0;
            program_state.next_output();
            true
        },
        None => false,
    }
}

/// Four changes of the colour model lead back to the model at the start.
pub proof fn lemma_selection_cycle(selection_type: SelectionType)
    ensures
        selection_type.next_spec().next_spec().next_spec().next_spec() == selection_type,
        selection_type.next_spec() != selection_type,
        selection_type.next_spec().next_spec() != selection_type,
        selection_type.next_spec().next_spec().next_spec() != selection_type,
{
}

/// The place in a cycle of `len` output encodings after `steps` steps from
/// `idx`, where no step starts at the encoding `ALL`.
pub open spec fn stepped_idx(idx: int, len: int, steps: nat) -> int
    decreases steps,
{
    if steps == 0 {
        idx
    } else {
        (stepped_idx(idx, len, (steps - 1) as nat) + 1) % len
    }
}

/// Stepping through a cycle stays within it, and as many steps as the cycle
/// is long lead back to the place at the start.
pub proof fn lemma_output_cycle(idx: int, len: int)
    requires
        0 <= idx < len,
    ensures
        forall|steps: nat| 0 <= #[trigger] stepped_idx(idx, len, steps) < len,
        stepped_idx(idx, len, len as nat) == idx,
{
    assert forall|steps: nat| #[trigger] stepped_idx(idx, len, steps) == (idx + steps) % len by {
        lemma_stepped_idx(idx, len, steps);
    }
    assert forall|steps: nat| 0 <= #[trigger] stepped_idx(idx, len, steps) < len by {
        lemma_stepped_idx(idx, len, steps);
    }
    lemma_stepped_idx(idx, len, len as nat);
    assert((idx + len) % len == idx) by (nonlinear_arith)
        requires
            0 <= idx < len,
    ;
}

proof fn lemma_stepped_idx(idx: int, len: int, steps: nat)
    requires
        0 <= idx < len,
    ensures
        stepped_idx(idx, len, steps) == (idx + steps) % len,
        0 <= stepped_idx(idx, len, steps) < len,
    decreases steps,
{
    if steps == 0 {
        assert(idx % len == idx) by (nonlinear_arith)
            requires
                0 <= idx < len,
        ;
    } else {
        lemma_stepped_idx(idx, len, (steps - 1) as nat);
        let before = idx + steps - 1;
        assert(((before % len) + 1) % len == (before + 1) % len) by (nonlinear_arith)
            requires
                len > 0,
        ;
        assert(0 <= (before + 1) % len < len) by (nonlinear_arith)
            requires
                len > 0,
        ;
    }
}

} // verus!
