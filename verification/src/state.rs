//! The state of a picking session and the edits that a key press makes.

use vstd::prelude::*;
use crate::color_conversions::{ansi2562rgb, ansi2562rgb_spec, ColorNameStandard};
use crate::color_representation::{
    modified_a, modified_cymk, modified_hsl, modified_rgb, parse_color, rings, whole_part,
    ColorRepresentation, Rgba,
};
use crate::config::Config;
use crate::error::ParseError;
use crate::math::{clamp, clamp_spec, HUE_MAX, PERCENT_MAX, RGB_MAX, UNIT};
use crate::output_type::OutputType;
use crate::text::NUMBER_CAP;

verus! {

/// The colour model that the picker edits.
#[derive(Clone, Copy, Debug, PartialEq, Eq, Structural)]
pub enum SelectionType {
    /// Hue, saturation and lightness.
    HSL,
    /// Red, green and blue.
    RGB,
    /// Cyan, yellow, magenta and black ink.
    CMYK,
    /// The 256-colour palette.
    ANSI256,
}

/// The largest alpha, as a fixed-point value.
pub const ALPHA_MAX: i64 = 2_550_000;

impl SelectionType {
    /// The number of channels of the model, alpha counted as the last; the
    /// 256-colour palette has one channel and no alpha.
    pub open spec fn channel_count(self) -> int {
        match self {
            SelectionType::HSL => 4,
            SelectionType::RGB => 4,
            SelectionType::CMYK => 5,
            SelectionType::ANSI256 => 1,
        }
    }

    /// The largest value of each channel.
    pub open spec fn max_values_spec(self) -> Seq<i64> {
        match self {
            SelectionType::HSL => seq![HUE_MAX, PERCENT_MAX, PERCENT_MAX, ALPHA_MAX],
            SelectionType::RGB => seq![RGB_MAX, RGB_MAX, RGB_MAX, ALPHA_MAX],
            SelectionType::CMYK => seq![
                PERCENT_MAX,
                PERCENT_MAX,
                PERCENT_MAX,
                PERCENT_MAX,
                ALPHA_MAX,
            ],
            SelectionType::ANSI256 => seq![ALPHA_MAX],
        }
    }

    /// The letter that stands for each channel.
    pub open spec fn labels(self) -> Seq<char> {
        match self {
            SelectionType::HSL => seq!['H', 'S', 'L', 'A'],
            SelectionType::RGB => seq!['R', 'G', 'B', 'A'],
            SelectionType::CMYK => seq!['C', 'Y', 'M', 'K', 'A'],
            SelectionType::ANSI256 => seq!['e'],
        }
    }

    /// The value of each channel of a colour, alpha as a fixed-point value.
    /// The one channel of the 256-colour palette is the selected entry.
    pub open spec fn colors_spec(self, c: Rgba, selected_item: u8) -> Seq<int> {
        match self {
            SelectionType::RGB => seq![c.r, c.g, c.b, c.a * UNIT],
            SelectionType::ANSI256 => seq![selected_item * UNIT],
            SelectionType::HSL => seq![c.hsl().0, c.hsl().1, c.hsl().2, c.a * UNIT],
            SelectionType::CMYK => seq![
                c.cymk().0,
                c.cymk().1,
                c.cymk().2,
                c.cymk().3,
                c.a * UNIT,
            ],
        }
    }

    /// The model that follows this one when the user cycles through them.
    pub open spec fn next_spec(self) -> SelectionType {
        match self {
            SelectionType::HSL => SelectionType::RGB,
            SelectionType::RGB => SelectionType::CMYK,
            SelectionType::CMYK => SelectionType::ANSI256,
            SelectionType::ANSI256 => SelectionType::HSL,
        }
    }

    /// The model that follows this one when the user cycles through them.
    pub fn next(&self) -> (next: SelectionType)
        ensures
            next == self.next_spec(),
    {
        match self {
            SelectionType::HSL => SelectionType::RGB,
            SelectionType::RGB => SelectionType::CMYK,
            SelectionType::CMYK => SelectionType::ANSI256,
            SelectionType::ANSI256 => SelectionType::HSL,
        }
    }

    /// The letter that stands for the selected channel.
    pub fn label_from_selected_item(&self, selected_item: u8) -> (label: char)
        requires
            *self != SelectionType::ANSI256 ==> selected_item < self.channel_count(),
        ensures
            label == if *self == SelectionType::ANSI256 {
                'e'
            } else {
                self.labels()[selected_item as int]
            },
    {
        match self {
            SelectionType::HSL => ['H', 'S', 'L', 'A'][selected_item as usize],
            SelectionType::ANSI256 => 'e',
            SelectionType::RGB => ['R', 'G', 'B', 'A'][selected_item as usize],
            SelectionType::CMYK => ['C', 'Y', 'M', 'K', 'A'][selected_item as usize],
        }
    }

    /// The largest value of each channel.
    pub fn max_values(&self) -> (values: Vec<i64>)
        ensures
            values@ == self.max_values_spec(),
            values.len() == self.channel_count(),
    {
        match self {
            SelectionType::HSL => vec![HUE_MAX, PERCENT_MAX, PERCENT_MAX, ALPHA_MAX],
            SelectionType::RGB => vec![RGB_MAX, RGB_MAX, RGB_MAX, ALPHA_MAX],
            SelectionType::CMYK => vec![
                PERCENT_MAX,
                PERCENT_MAX,
                PERCENT_MAX,
                PERCENT_MAX,
                ALPHA_MAX,
            ],
            SelectionType::ANSI256 => vec![ALPHA_MAX],
        }
    }

    /// The step by which one key press changes each channel: one whole.
    pub fn increments(&self) -> (steps: Vec<i64>)
        ensures
            steps.len() == self.channel_count(),
            forall|i: int| 0 <= i < steps.len() ==> #[trigger] steps[i] == UNIT,
    {
        match self {
            SelectionType::HSL | SelectionType::RGB => vec![UNIT, UNIT, UNIT, UNIT],
            SelectionType::CMYK => vec![UNIT, UNIT, UNIT, UNIT, UNIT],
            SelectionType::ANSI256 => vec![UNIT],
        }
    }

    /// The value of each channel of the current colour of a session.
    pub fn colors(&self, program_state: &ProgramState) -> (values: Vec<i64>)
        ensures
            values.len() == self.channel_count(),
            forall|i: int|
                0 <= i < values.len() ==> values[i] == self.colors_spec(
                    program_state.curr_color@,
                    program_state.selected_item,
                )[i],
            forall|i: int| 0 <= i < values.len() ==> 0 <= #[trigger] values[i] <= 3_600_000,
    {
        let a: i64 = program_state.curr_color.a() as i64 * UNIT;
        match self {
            SelectionType::RGB => {
                let (r, g, b) = program_state.curr_color.rgb();
                vec![r, g, b, a]
            },
            SelectionType::ANSI256 => vec![program_state.selected_item as i64 * UNIT],
            SelectionType::HSL => {
                let (h, s, l) = program_state.curr_color.hsl();
                vec![h, s, l, a]
            },
            SelectionType::CMYK => {
                let (c, y, m, k) = program_state.curr_color.cymk();
                vec![c, y, m, k, a]
            },
        }
    }

    /// The colour after the channel `item` is set to `new_value`.
    ///
    /// The other channels of the model keep their values, and the colour is
    /// made anew from all of them, as the edit of the model makes it. An
    /// alpha is cut down to a whole number. In the 256-colour palette the
    /// value is the number of an entry, and the colour becomes that entry.
    pub open spec fn edited_color(
        self,
        c: Rgba,
        item: int,
        new_value: int,
        low_rgb: [[u8; 3]; 16],
    ) -> Rgba {
        let values = self.colors_spec(c, 0).update(item, new_value);
        let alpha = c.a + whole_part(values[self.channel_count() - 1] - c.a * UNIT);
        match self {
            SelectionType::HSL => modified_a(
                modified_hsl(c, (values[0], values[1], values[2])),
                alpha,
            ),
            SelectionType::RGB => modified_a(
                modified_rgb(c, (values[0], values[1], values[2])),
                alpha,
            ),
            SelectionType::CMYK => modified_a(
                modified_cymk(c, (values[0], values[1], values[2], values[3])),
                alpha,
            ),
            SelectionType::ANSI256 => {
                let entry = ansi2562rgb_spec(palette_index(new_value), low_rgb);
                modified_rgb(c, (entry.0 * UNIT, entry.1 * UNIT, entry.2 * UNIT))
            },
        }
    }

    /// Whether setting the channel `item` to `new_value` rings the bell:
    /// whether one of the values from which the colour is made anew lies
    /// outside the range of its channel. That is the new value, or a hue
    /// that was above `HUE_MAX` before the edit.
    pub open spec fn edit_rings(self, c: Rgba, item: int, new_value: int) -> bool {
        let values = self.colors_spec(c, 0).update(item, new_value);
        let alpha = c.a + whole_part(values[self.channel_count() - 1] - c.a * UNIT);
        match self {
            SelectionType::HSL => rings(0, values[0], HUE_MAX as int) || rings(
                0,
                values[1],
                PERCENT_MAX as int,
            ) || rings(0, values[2], PERCENT_MAX as int) || rings(0, alpha, 255),
            SelectionType::RGB => rings(0, values[0], RGB_MAX as int) || rings(
                0,
                values[1],
                RGB_MAX as int,
            ) || rings(0, values[2], RGB_MAX as int) || rings(0, alpha, 255),
            SelectionType::CMYK => rings(0, values[0], PERCENT_MAX as int) || rings(
                0,
                values[1],
                PERCENT_MAX as int,
            ) || rings(0, values[2], PERCENT_MAX as int) || rings(
                0,
                values[3],
                PERCENT_MAX as int,
            ) || rings(0, alpha, 255),
            SelectionType::ANSI256 => false,
        }
    }

    /// Sets the selected channel of the current colour to `new_value`,
    /// limited to the range of the channel. `low_rgb` holds the first 16
    /// entries of the 256-colour palette, which only that model reads. The
    /// result says whether the value had to be limited: the caller rings the
    /// bell if so.
    pub fn modify_color_based_on_selected_item(
        &self,
        program_state: &mut ProgramState,
        new_value: i64,
        low_rgb: &[[u8; 3]; 16],
    ) -> (bell: bool)
        requires
            *self != SelectionType::ANSI256 ==> old(program_state).selected_item
                < self.channel_count(),
        ensures
            final(program_state).curr_color@ == self.edited_color(
                old(program_state).curr_color@,
                old(program_state).selected_item as int,
                new_value as int,
                *low_rgb,
            ),
            final(program_state).curr_color@.wf(),
            bell == self.edit_rings(
                old(program_state).curr_color@,
                old(program_state).selected_item as int,
                new_value as int,
            ),
            final(program_state).selected_item == if *self == SelectionType::ANSI256 {
                palette_index(new_value as int)
            } else {
                old(program_state).selected_item
            },
            final(program_state).same_session(*old(program_state)),
    {
        let item: u8 = program_state.selected_item;
        let value: i64 = clamp(-NUMBER_CAP, new_value, NUMBER_CAP);
        let alpha: i64 = program_state.curr_color.a() as i64 * UNIT;
        let ghost c = program_state.curr_color@;
        match self {
            SelectionType::HSL => {
                let (h, s, l) = program_state.curr_color.hsl();
                let bell: bool = program_state.curr_color.modify_hsl(
                    (
                        if item == 0 {
                            value
                        } else {
                            h
                        },
                        if item == 1 {
                            value
                        } else {
                            s
                        },
                        if item == 2 {
                            value
                        } else {
                            l
                        },
                    ),
                );
                let bell_a: bool = program_state.curr_color.modify_a(
                    new_alpha(alpha, if item == 3 {
                        value
                    } else {
                        alpha
                    }),
                );
                bell || bell_a
            },
            SelectionType::RGB => {
                let (r, g, b) = program_state.curr_color.rgb();
                let bell: bool = program_state.curr_color.modify_rgb(
                    (
                        if item == 0 {
                            value
                        } else {
                            r
                        },
                        if item == 1 {
                            value
                        } else {
                            g
                        },
                        if item == 2 {
                            value
                        } else {
                            b
                        },
                    ),
                );
                let bell_a: bool = program_state.curr_color.modify_a(
                    new_alpha(alpha, if item == 3 {
                        value
                    } else {
                        alpha
                    }),
                );
                bell || bell_a
            },
            SelectionType::CMYK => {
                let (cy, ye, ma, k) = program_state.curr_color.cymk();
                let bell: bool = program_state.curr_color.modify_cymk(
                    (
                        if item == 0 {
                            value
                        } else {
                            cy
                        },
                        if item == 1 {
                            value
                        } else {
                            ye
                        },
                        if item == 2 {
                            value
                        } else {
                            ma
                        },
                        if item == 3 {
                            value
                        } else {
                            k
                        },
                    ),
                );
                let bell_a: bool = program_state.curr_color.modify_a(
                    new_alpha(alpha, if item == 4 {
                        value
                    } else {
                        alpha
                    }),
                );
                bell || bell_a
            },
            SelectionType::ANSI256 => {
                let index: u8 = index_of_value(value);
                let (r, g, b) = ansi2562rgb(index, low_rgb);
                program_state.curr_color.modify_rgb(
                    (r as i64 * UNIT, g as i64 * UNIT, b as i64 * UNIT),
                );
                program_state.selected_item = index;
                false
            },
        }
    }
}

/// The entry of the 256-colour palette that a fixed-point value names: its
/// whole part, limited to the range from 0 to 255.
pub open spec fn palette_index(value: int) -> u8 {
    clamp_spec(0, whole_part(value), 255) as u8
}

fn index_of_value(value: i64) -> (index: u8)
    requires
        -NUMBER_CAP <= value <= NUMBER_CAP,
    ensures
        index == palette_index(value as int),
{
    if value < 0 {
        0
    } else if value / UNIT > 255 {
        255
    } else {
        (value / UNIT) as u8
    }
}

/// The alpha that results where a fixed-point `value` is asked of the alpha
/// `alpha` (also fixed-point): the old alpha moved by the whole part of
/// their difference.
fn new_alpha(alpha: i64, value: i64) -> (a: i32)
    requires
        0 <= alpha <= ALPHA_MAX,
        alpha % UNIT == 0,
        -NUMBER_CAP <= value <= NUMBER_CAP,
    ensures
        a == clamp_spec(-1000, (alpha as int) / (UNIT as int) + whole_part(value - alpha), 1000),
{
    let delta: i64 = value - alpha;
    let step: i64 = if delta >= 0 {
        delta / UNIT
    } else {
        -((-delta) / UNIT)
    };
    clamp(-1000, alpha / UNIT + step, 1000) as i32
}

/// A picking session.
pub struct ProgramState {
    /// The colour model that is edited.
    pub selection_type: SelectionType,
    /// The selected channel, counted from 0; in the 256-colour palette the
    /// selected entry.
    pub selected_item: u8,
    /// Whether alpha is edited and shown.
    pub enable_alpha: bool,
    /// The encoding in which the colour is shown and copied.
    pub output_type: OutputType,
    /// The colour that is picked.
    pub curr_color: ColorRepresentation,
    /// The standard that resolves colour names.
    pub clr_std: ColorNameStandard,
    /// The place of the output encoding in its cycle.
    pub output_idx: usize,
    /// The cycle of output encodings.
    pub output_order: Vec<OutputType>,
    /// The configuration of the session.
    pub config: Config,
    /// Colours shown beside the current one.
    pub comparison_colors: Vec<ColorRepresentation>,
    /// Colours shown mixed with the current one.
    pub mix_colors: Vec<ColorRepresentation>,
}

impl ProgramState {
    /// Whether the session is consistent: its cycle of output encodings is
    /// not empty and holds the place of the output encoding, and outside the
    /// 256-colour palette the selected channel is a channel of the model.
    pub open spec fn wf(self) -> bool {
        &&& self.output_order.len() > 0
        &&& self.output_idx < self.output_order.len()
        &&& self.selection_type != SelectionType::ANSI256 ==> self.selected_item
            < self.selection_type.channel_count()
        &&& self.curr_color@.wf()
    }

    /// Whether this session has everything of `other` but the current
    /// colour and the selection.
    pub open spec fn same_session(self, other: ProgramState) -> bool {
        &&& self.selection_type == other.selection_type
        &&& self.enable_alpha == other.enable_alpha
        &&& self.same_output(other)
        &&& self.same_setting(other)
    }

    /// Whether this session has the output encoding and its cycle of
    /// `other`.
    pub open spec fn same_output(self, other: ProgramState) -> bool {
        &&& self.output_type == other.output_type
        &&& self.output_idx == other.output_idx
        &&& self.output_order == other.output_order
    }

    /// Whether this session has the naming standard, the configuration and
    /// the side colours of `other`.
    pub open spec fn same_setting(self, other: ProgramState) -> bool {
        &&& self.clr_std == other.clr_std
        &&& self.config == other.config
        &&& self.comparison_colors == other.comparison_colors
        &&& self.mix_colors == other.mix_colors
    }

    /// Whether this session has the colour and the selection of `other`.
    pub open spec fn same_color(self, other: ProgramState) -> bool {
        &&& self.curr_color == other.curr_color
        &&& self.selected_item == other.selected_item
        &&& self.selection_type == other.selection_type
        &&& self.enable_alpha == other.enable_alpha
    }

    /// A session that starts with the colour that `starting_clr` stands
    /// for, the first channel selected and alpha not edited. `term` is the
    /// palette of the terminal, which only the naming standard `MyTerm`
    /// reads.
    pub fn new(
        selection_type: SelectionType,
        output_type: OutputType,
        starting_clr: &str,
        clr_std: ColorNameStandard,
        output_order: Vec<OutputType>,
        cfg: Config,
        comparison_colors: Vec<ColorRepresentation>,
        mix_colors: Vec<ColorRepresentation>,
        term: &[[u8; 3]; 16],
    ) -> (r: Result<ProgramState, ParseError>)
        requires
            output_order.len() > 0,
        ensures
            match r {
                Ok(state) => {
                    &&& parse_color(starting_clr@, clr_std, *term) == Ok::<Rgba, ParseError>(
                        state.curr_color@,
                    )
                    &&& state.wf()
                    &&& state.selected_item == 0
                    &&& !state.enable_alpha
                    &&& state.output_idx == 0
                    &&& state.selection_type == selection_type
                    &&& state.output_type == output_type
                    &&& state.clr_std == clr_std
                    &&& state.output_order == output_order
                    &&& state.config == cfg
                    &&& state.comparison_colors == comparison_colors
                    &&& state.mix_colors == mix_colors
                },
                Err(e) => parse_color(starting_clr@, clr_std, *term) == Err::<Rgba, ParseError>(e),
            },
    {
        let curr_color: ColorRepresentation = match ColorRepresentation::from_color(
            starting_clr,
            &clr_std,
            term,
        ) {
            Ok(c) => c,
            Err(e) => {
                return Err(e);
            },
        };
        Ok(
            ProgramState {
                selected_item: 0,
                selection_type,
                output_type,
                enable_alpha: false,
                clr_std,
                curr_color,
                output_idx: 0,
                output_order,
                config: cfg,
                comparison_colors,
                mix_colors,
            },
        )
    }

    /// The place in the cycle that follows the current one: the start of
    /// the cycle after the encoding `ALL`, the next place otherwise, and
    /// the start again after the last.
    pub open spec fn next_output_idx(self) -> int {
        if self.output_type@ is ALL {
            0
        } else {
            (self.output_idx + 1) % (self.output_order.len() as int)
        }
    }

    /// Moves to the next output encoding of the cycle.
    pub fn next_output(&mut self)
        requires
            old(self).wf(),
        ensures
            final(self).output_idx == old(self).next_output_idx(),
            final(self).output_type@ == old(self).output_order[old(self).next_output_idx()]@,
            final(self).output_order == old(self).output_order,
            final(self).same_color(*old(self)),
            final(self).same_setting(*old(self)),
            final(self).wf(),
    {
        let len: usize = self.output_order.len();
        let next: usize = if self.output_idx + 1 >= len {
            0
        } else {
            self.output_idx + 1
        };
        proof {
            if self.output_idx + 1 >= len {
                assert(self.output_idx + 1 == len);
                assert((len as int) % (len as int) == 0) by (nonlinear_arith)
                    requires
                        len > 0,
                ;
            } else {
                assert((self.output_idx + 1) % (len as int) == self.output_idx + 1)
                    by (nonlinear_arith)
                    requires
                        0 <= self.output_idx + 1 < len,
                ;
            }
        }
        self.output_idx = match self.output_type {
            OutputType::ALL => 0,
            _ => next,
        };
        self.output_type = self.output_order[self.output_idx].duplicate();
    }
}

} // verus!
