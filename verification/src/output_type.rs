//! The textual encodings in which a colour is shown and copied.

use vstd::prelude::*;
use crate::color_representation::{formatted_output_clr_spec, ColorRepresentation};
use crate::config::{find_output, Config};
use crate::text::{chars_eq, to_chars};

verus! {

/// An output encoding.
#[derive(Clone, Debug)]
pub enum OutputType {
    /// Hue, saturation and lightness.
    HSL,
    /// Red, green and blue.
    RGB,
    /// Hexadecimal digits.
    HEX,
    /// The numbers of a terminal colour sequence.
    ANSI,
    /// Cyan, yellow, magenta and black ink.
    CYMK,
    /// A template of the user.
    CUSTOM(String),
    /// Hue, saturation and lightness; red, green and blue; hexadecimal; and
    /// terminal numbers, one per line.
    ALL,
}

/// What an output encoding is: the encoding, and for a template its text.
pub enum OutputModel {
    HSL,
    RGB,
    HEX,
    ANSI,
    CYMK,
    CUSTOM(Seq<char>),
    ALL,
}

impl View for OutputType {
    type V = OutputModel;

    open spec fn view(&self) -> OutputModel {
        match self {
            OutputType::HSL => OutputModel::HSL,
            OutputType::RGB => OutputModel::RGB,
            OutputType::HEX => OutputModel::HEX,
            OutputType::ANSI => OutputModel::ANSI,
            OutputType::CYMK => OutputModel::CYMK,
            OutputType::CUSTOM(fmt) => OutputModel::CUSTOM(fmt@),
            OutputType::ALL => OutputModel::ALL,
        }
    }
}

/// The views of a list of output encodings.
pub open spec fn output_views(order: Seq<OutputType>) -> Seq<OutputModel> {
    Seq::new(order.len(), |i: int| order[i]@)
}

/// A letter in lower case; any other character as it is.
pub open spec fn lower(c: char) -> char {
    if 'A' <= c <= 'Z' {
        ((c as int) + 32) as char
    } else {
        c
    }
}

/// A text with its letters from `A` to `Z` in lower case.
pub open spec fn lower_text(s: Seq<char>) -> Seq<char> {
    Seq::new(s.len(), |i: int| lower(s[i]))
}

/// The output encoding that a word of the configuration stands for: one of
/// the names `hsl`, `rgb`, `hex`, `ansi`, `cmyk` (also written `cymk`) and
/// `all`, in any case of the letters, or else a template, which is the word
/// itself.
pub open spec fn output_of_name(data: Seq<char>) -> OutputModel {
    let word = lower_text(data);
    if word == "hsl"@ {
        OutputModel::HSL
    } else if word == "rgb"@ {
        OutputModel::RGB
    } else if word == "hex"@ {
        OutputModel::HEX
    } else if word == "ansi"@ {
        OutputModel::ANSI
    } else if word == "cmyk"@ || word == "cymk"@ {
        OutputModel::CYMK
    } else if word == "all"@ {
        OutputModel::ALL
    } else {
        OutputModel::CUSTOM(data)
    }
}

/// The output encodings that a list of words stands for.
pub open spec fn outputs_of_names(names: Seq<String>) -> Seq<OutputModel> {
    Seq::new(names.len(), |i: int| output_of_name(names[i]@))
}

/// The cycle of output encodings that is used where the configuration names
/// none.
pub open spec fn builtin_order() -> Seq<OutputModel> {
    seq![OutputModel::HSL, OutputModel::RGB, OutputModel::HEX, OutputModel::ANSI]
}

/// The cycle called `default`: that of the configuration if it has one, the
/// built-in cycle otherwise.
pub open spec fn default_order_spec(config: Config) -> Seq<OutputModel> {
    match config.outputs {
        Some(outputs) => {
            let at = find_output(outputs@, "default"@);
            if at < outputs.len() {
                outputs_of_names(outputs[at].order@)
            } else {
                builtin_order()
            }
        },
        None => builtin_order(),
    }
}

/// The cycle called `name`, if there is one. The name `default` always
/// names a cycle.
pub open spec fn order_by_name_spec(config: Config, name: Seq<char>) -> Option<Seq<OutputModel>> {
    if name == "default"@ {
        Some(default_order_spec(config))
    } else {
        match config.outputs {
            Some(outputs) => {
                let at = find_output(outputs@, name);
                if at < outputs.len() {
                    Some(outputs_of_names(outputs[at].order@))
                } else {
                    None
                }
            },
            None => None,
        }
    }
}

fn lower_chars(s: &Vec<char>) -> (r: Vec<char>)
    ensures
        r@ == lower_text(s@),
{
    let mut r: Vec<char> = Vec::new();
    let mut i: usize = 0;
    while i < s.len()
        invariant
            i <= s.len(),
            r.len() == i,
            forall|j: int| 0 <= j < i ==> r@[j] == lower(s@[j]),
        decreases s.len() - i,
    {
        let c: char = s[i];
        let low: char = if c >= 'A' && c <= 'Z' {
            ((c as u8) + 32) as char
        } else {
            c
        };
        r.push(low);
        i += 1;
    }
    r
}

fn word_is(word: &Vec<char>, name: &str) -> (r: bool)
    ensures
        r == (word@ == name@),
{
    let other: Vec<char> = to_chars(name);
    chars_eq(word, &other)
}

fn orders_of(names: &Vec<String>) -> (order: Vec<OutputType>)
    ensures
        output_views(order@) == outputs_of_names(names@),
{
    let mut order: Vec<OutputType> = Vec::new();
    let mut i: usize = 0;
    while i < names.len()
        invariant
            i <= names.len(),
            order.len() == i,
            forall|j: int| 0 <= j < i ==> order@[j]@ == output_of_name(names@[j]@),
        decreases names.len() - i,
    {
        order.push(OutputType::from_str(names[i].as_str()));
        i += 1;
    }
    assert(output_views(order@) =~= outputs_of_names(names@));
    order
}

impl OutputType {
    /// An output encoding equal to this one.
    pub fn duplicate(&self) -> (copy: OutputType)
        ensures
            copy@ == self@,
    {
        match self {
            OutputType::HSL => OutputType::HSL,
            OutputType::RGB => OutputType::RGB,
            OutputType::HEX => OutputType::HEX,
            OutputType::ANSI => OutputType::ANSI,
            OutputType::CYMK => OutputType::CYMK,
            OutputType::CUSTOM(fmt) => OutputType::CUSTOM(fmt.clone()),
            OutputType::ALL => OutputType::ALL,
        }
    }

    /// The name under which the encoding is shown; a template shows itself.
    pub fn name(&self) -> (text: String)
        ensures
            text@ == match self@ {
                OutputModel::HSL => "HSL"@,
                OutputModel::RGB => "RGB"@,
                OutputModel::HEX => "HEX"@,
                OutputModel::ANSI => "ANSI"@,
                OutputModel::CYMK => "CYMK"@,
                OutputModel::CUSTOM(fmt) => fmt,
                OutputModel::ALL => "ALL"@,
            },
    {
        match self {
            OutputType::HSL => "HSL".to_owned(),
            OutputType::RGB => "RGB".to_owned(),
            OutputType::HEX => "HEX".to_owned(),
            OutputType::ANSI => "ANSI".to_owned(),
            OutputType::CYMK => "CYMK".to_owned(),
            OutputType::CUSTOM(fmt) => fmt.clone(),
            OutputType::ALL => "ALL".to_owned(),
        }
    }

    /// The colour in this output encoding, in the form that names the
    /// encoding.
    pub fn render_output(&self, curr_color: &ColorRepresentation, enable_alpha: bool) -> (out:
        String)
        ensures
            out@ == formatted_output_clr_spec(curr_color@, self@, enable_alpha),
    {
        curr_color.get_formatted_output_clr(self, enable_alpha)
    }

    /// Reads a word of the configuration as an output encoding.
    pub fn from_str(data: &str) -> (output: OutputType)
        ensures
            output@ == output_of_name(data@),
    {
        let chars: Vec<char> = to_chars(data);
        let word: Vec<char> = lower_chars(&chars);
        if word_is(&word, "hsl") {
            OutputType::HSL
        } else if word_is(&word, "rgb") {
            OutputType::RGB
        } else if word_is(&word, "hex") {
            OutputType::HEX
        } else if word_is(&word, "ansi") {
            OutputType::ANSI
        } else if word_is(&word, "cmyk") || word_is(&word, "cymk") {
            OutputType::CYMK
        } else if word_is(&word, "all") {
            OutputType::ALL
        } else {
            OutputType::CUSTOM(data.to_owned())
        }
    }

    /// The cycle called `name`, or `None` where the configuration has no
    /// cycle of that name.
    pub fn get_order_by_name(config: &Config, name: &str) -> (order: Option<Vec<OutputType>>)
        ensures
            match order {
                Some(list) => order_by_name_spec(*config, name@) == Some(output_views(list@)),
                None => order_by_name_spec(*config, name@) is None,
            },
    {
        if crate::text::str_eq(name, "default") {
            return Some(OutputType::default_order(config));
        }
        match config.find_output(name) {
            Some(at) => match &config.outputs {
                Some(outputs) => Some(orders_of(&outputs[at].order)),
                None => None,
            },
            None => None,
        }
    }

    /// The cycle called `default`.
    pub fn default_order(config: &Config) -> (order: Vec<OutputType>)
        ensures
            output_views(order@) == default_order_spec(*config),
    {
        match config.find_output("default") {
            Some(at) => match &config.outputs {
                Some(outputs) => {
                    return orders_of(&outputs[at].order);
                },
                None => {},
            },
            None => {},
        }
        let mut order: Vec<OutputType> = Vec::new();
        order.push(OutputType::HSL);
        order.push(OutputType::RGB);
        order.push(OutputType::HEX);
        order.push(OutputType::ANSI);
        assert(output_views(order@) =~= builtin_order());
        order
    }
}

} // verus!
