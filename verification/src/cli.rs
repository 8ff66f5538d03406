//! The arguments of the command line as plain values, and what the one-shot
//! commands work out before they print.

use vstd::prelude::*;
use crate::color_conversions::{
    color_mix, color_mix_spec, contrast, contrast_spec, invert, invert_spec, ColorNameStandard,
    MixSpace,
};
use crate::color_representation::{
    color_views, formatted_output_clr_spec, parse_color, rgba_of_number, ColorRepresentation,
    Rgba,
};
use crate::error::ParseError;
use crate::math::{clamp, clamp_spec, PERCENT_MAX, UNIT};
use crate::output_type::{OutputModel, OutputType};
use crate::state::{ProgramState, SelectionType};
use crate::text::{from_chars, parse_decimal, parse_number_spec, split, split_spec, to_chars};

verus! {

/// The output encoding that the command line asks for.
#[derive(Clone, Copy, Debug, PartialEq, Eq, Structural)]
pub enum RequestedOutputType {
    HSL,
    RGB,
    HEX,
    CUSTOM,
}

/// The arguments of the command line.
pub struct Args {
    /// The colour to start with; `-` stands for a line of the input.
    pub color: Option<String>,
    /// Whether the colour is printed when the session ends.
    pub print_on_exit: bool,
    /// Whether the colour names are listed instead of a session.
    pub list_colors: bool,
    /// The standard that resolves colour names.
    pub clr_standard: Option<ColorNameStandard>,
    /// Whether `bg_clr` and `fg_clr` are used.
    pub custom_colors: bool,
    /// The background colour of the session.
    pub bg_clr: Option<String>,
    /// The foreground colour of the session.
    pub fg_clr: Option<String>,
    /// Colours to show beside the current one, parted by spaces.
    pub compare: Option<String>,
    /// Colours to show mixed with the current one, parted by spaces.
    pub mix_colors: Option<String>,
    /// The colour model to start with.
    pub input_type: Option<SelectionType>,
    /// The name of the cycle of output encodings.
    pub output_cycle: Option<String>,
    /// The output encoding.
    pub output_type: Option<RequestedOutputType>,
    /// The template of the output encoding `CUSTOM`.
    pub output_fmt: Option<String>,
    /// The one-shot command, if one is given.
    pub action: Option<Actions>,
}

/// The one-shot commands.
pub enum Actions {
    /// Print the colour in another encoding.
    Convert(ConvertArgs),
    /// Print the colour mixed with others.
    Mix(MixArgs),
    /// Print the inverted colour.
    Invert(InvertArgs),
    /// Print the contrast of the colour against others.
    Contrast(ContrastArgs),
}

/// The arguments of the contrast command.
pub struct ContrastArgs {
    /// The colours to contrast against.
    pub colors: Vec<String>,
}

/// The arguments of the invert command.
pub struct InvertArgs {
    /// Whether a square of the colour is shown.
    pub preview: bool,
}

/// The arguments of the mix command.
pub struct MixArgs {
    /// The colour that is mixed.
    pub color: String,
    /// What it is mixed with: a colour each, and after a colon how many
    /// percent of that colour the mix takes; 50 where none is given.
    pub with: Vec<String>,
    /// Whether a square of each mix is shown.
    pub preview: bool,
}

/// The arguments of the convert command.
pub struct ConvertArgs {
    /// Whether alpha is printed.
    pub alpha: bool,
    /// The encoding to print.
    pub to: RequestedOutputType,
    /// The template of the encoding `CUSTOM`.
    pub fmt: Option<String>,
}

/// The output encoding of a session that the command line asks for: the
/// template is `fmt`, or `default_fmt` where the command line names none.
pub open spec fn requested_output_spec(
    to: RequestedOutputType,
    fmt: Option<String>,
    default_fmt: Seq<char>,
) -> OutputModel {
    match to {
        RequestedOutputType::HSL => OutputModel::HSL,
        RequestedOutputType::RGB => OutputModel::RGB,
        RequestedOutputType::HEX => OutputModel::HEX,
        RequestedOutputType::CUSTOM => OutputModel::CUSTOM(
            match fmt {
                Some(text) => text@,
                None => default_fmt,
            },
        ),
    }
}

/// The output encoding that the command line asks for.
pub fn requested_output(to: RequestedOutputType, fmt: &Option<String>, default_fmt: &str) -> (output:
    OutputType)
    ensures
        output@ == requested_output_spec(to, *fmt, default_fmt@),
{
    match to {
        RequestedOutputType::HSL => OutputType::HSL,
        RequestedOutputType::RGB => OutputType::RGB,
        RequestedOutputType::HEX => OutputType::HEX,
        RequestedOutputType::CUSTOM => OutputType::CUSTOM(
            match fmt {
                Some(text) => text.clone(),
                None => default_fmt.to_owned(),
            },
        ),
    }
}

/// What the convert command prints: the colour in the encoding that is
/// asked for, in the form that names the encoding. The template of
/// `CUSTOM` is the colour number in hexadecimal where none is given.
pub fn convert_action(conversion: &ConvertArgs, curr_color: &ColorRepresentation) -> (line: String)
    ensures
        line@ == formatted_output_clr_spec(
            curr_color@,
            requested_output_spec(conversion.to, conversion.fmt, "%xD"@),
            conversion.alpha,
        ),
{
    requested_output(conversion.to, &conversion.fmt, "%xD").render_output(
        curr_color,
        conversion.alpha,
    )
}

/// The inverted colour of a session, which the invert command prints.
pub fn invert_action(program_state: &ProgramState) -> (inverted: ColorRepresentation)
    ensures
        inverted@ == rgba_of_number(invert_spec(program_state.curr_color@.integer() as u32) as u32),
        inverted@.wf(),
{
    ColorRepresentation::from_integer(invert(program_state.curr_color.integer()))
}

/// How much of the other colour a mix takes, as a share of `UNIT`: the
/// percentage after the colon of the entry, limited to the range from 0 to
/// 100, or a half where the entry has no colon.
pub open spec fn mix_share(entry: Seq<char>) -> Result<int, ParseError> {
    let parts = split_spec(entry, ':');
    if parts.len() > 1 {
        match parse_number_spec(parts[1]) {
            Some(p) => Ok(clamp_spec(0, p as int, PERCENT_MAX as int) / 100),
            None => Err(ParseError::InvalidNumber),
        }
    } else {
        Ok(UNIT / 2)
    }
}

/// The mix of the colour number `base` with the colour of an entry, in red,
/// green and blue.
#[verifier::opaque]
pub open spec fn mix_entry(
    base: u32,
    entry: Seq<char>,
    clr_std: ColorNameStandard,
    term: [[u8; 3]; 16],
) -> Result<Rgba, ParseError> {
    match mix_share(entry) {
        Err(e) => Err(e),
        Ok(share) => match parse_color(split_spec(entry, ':')[0], clr_std, term) {
            Err(e) => Err(e),
            Ok(c) => Ok(
                rgba_of_number(
                    color_mix_spec(base, c.integer() as u32, share, MixSpace::RGB) as u32,
                ),
            ),
        },
    }
}

/// The mixes of the colour number `base` with the first `upto` entries, or
/// the error of the first entry that cannot be read.
pub open spec fn mix_entries(
    base: u32,
    with: Seq<String>,
    clr_std: ColorNameStandard,
    term: [[u8; 3]; 16],
    upto: int,
) -> Result<Seq<Rgba>, ParseError>
    decreases upto,
{
    if upto <= 0 || upto > with.len() {
        Ok(Seq::<Rgba>::empty())
    } else {
        match mix_entries(base, with, clr_std, term, upto - 1) {
            Err(e) => Err(e),
            Ok(before) => match mix_entry(base, with[upto - 1]@, clr_std, term) {
                Err(e) => Err(e),
                Ok(c) => Ok(before.push(c)),
            },
        }
    }
}

/// What the mix command works out: the colour of the command mixed with
/// each of its entries.
pub open spec fn mix_spec(args: MixArgs, clr_std: ColorNameStandard, term: [[u8; 3]; 16])
    -> Result<Seq<Rgba>, ParseError> {
    match parse_color(args.color@, clr_std, term) {
        Err(e) => Err(e),
        Ok(c) => mix_entries(c.integer() as u32, args.with@, clr_std, term, args.with.len() as int),
    }
}

fn mix_one(base: u32, entry: &str, clr_std: &ColorNameStandard, term: &[[u8; 3]; 16]) -> (r:
    Result<ColorRepresentation, ParseError>)
    ensures
        match r {
            Ok(c) => mix_entry(base, entry@, *clr_std, *term) == Ok::<Rgba, ParseError>(c@),
            Err(e) => mix_entry(base, entry@, *clr_std, *term) == Err::<Rgba, ParseError>(e),
        },
{
    reveal(mix_entry);
    let chars: Vec<char> = to_chars(entry);
    let parts: Vec<Vec<char>> = split(&chars, ':');
    let share: i64 = if parts.len() > 1 {
        match parse_decimal(&parts[1]) {
            Some(p) => clamp(0, p, PERCENT_MAX) / 100,
            None => {
                return Err(ParseError::InvalidNumber);
            },
        }
    } else {
        UNIT / 2
    };
    let name: String = from_chars(&parts[0]);
    match ColorRepresentation::from_color(name.as_str(), clr_std, term) {
        Ok(other) => Ok(
            ColorRepresentation::from_integer(
                color_mix(base, other.integer(), share, &MixSpace::RGB),
            ),
        ),
        Err(e) => Err(e),
    }
}

/// Mixes the colour of the mix command with each of its entries, in red,
/// green and blue. `term` is the palette of the terminal, which only the
/// naming standard `MyTerm` reads.
pub fn mix(mixing_args: &MixArgs, clr_std: &ColorNameStandard, term: &[[u8; 3]; 16]) -> (r: Result<
    Vec<ColorRepresentation>,
    ParseError,
>)
    ensures
        match r {
            Ok(colors) => mix_spec(*mixing_args, *clr_std, *term) == Ok::<Seq<Rgba>, ParseError>(
                color_views(colors@),
            ),
            Err(e) => mix_spec(*mixing_args, *clr_std, *term) == Err::<Seq<Rgba>, ParseError>(e),
        },
{
    let base: u32 = match ColorRepresentation::from_color(
        mixing_args.color.as_str(),
        clr_std,
        term,
    ) {
        Ok(c) => c.integer(),
        Err(e) => {
            return Err(e);
        },
    };
    let mut clrs: Vec<ColorRepresentation> = Vec::new();
    let mut i: usize = 0;
    proof {
        assert(color_views(clrs@) =~= Seq::<Rgba>::empty());
    }
    while i < mixing_args.with.len()
        invariant
            i <= mixing_args.with.len(),
            mix_spec(*mixing_args, *clr_std, *term) == mix_entries(
                base,
                mixing_args.with@,
                *clr_std,
                *term,
                mixing_args.with.len() as int,
            ),
            mix_entries(base, mixing_args.with@, *clr_std, *term, i as int) == Ok::<
                Seq<Rgba>,
                ParseError,
            >(color_views(clrs@)),
        decreases mixing_args.with.len() - i,
    {
        let ghost before = color_views(clrs@);
        match mix_one(base, mixing_args.with[i].as_str(), clr_std, term) {
            Ok(c) => {
                clrs.push(c);
                proof {
                    assert(color_views(clrs@) =~= before.push(c@));
                }
            },
            Err(e) => {
                proof {
                    lemma_mix_entries_error(
                        base,
                        mixing_args.with@,
                        *clr_std,
                        *term,
                        i + 1,
                        mixing_args.with.len() as int,
                    );
                }
                return Err(e);
            },
        }
        i += 1;
    }
    Ok(clrs)
}

proof fn lemma_mix_entries_error(
    base: u32,
    with: Seq<String>,
    clr_std: ColorNameStandard,
    term: [[u8; 3]; 16],
    short: int,
    long: int,
)
    requires
        0 <= short <= long <= with.len(),
        mix_entries(base, with, clr_std, term, short) is Err,
    ensures
        mix_entries(base, with, clr_std, term, long) == mix_entries(
            base,
            with,
            clr_std,
            term,
            short,
        ),
    decreases long,
{
    if short < long {
        lemma_mix_entries_error(base, with, clr_std, term, short, long - 1);
    }
}

/// What the mix command prints: each mix in the output encoding of the
/// session, without alpha.
pub fn mix_action(args: &MixArgs, program_state: &ProgramState, term: &[[u8; 3]; 16]) -> (r: Result<
    Vec<String>,
    ParseError,
>)
    ensures
        match r {
            Ok(lines) => {
                &&& mix_spec(*args, program_state.clr_std, *term) matches Ok(colors)
                &&& lines.len() == colors.len()
                &&& forall|i: int|
                    0 <= i < lines.len() ==> (#[trigger] lines[i])@ == formatted_output_clr_spec(
                        colors[i],
                        program_state.output_type@,
                        false,
                    )
            },
            Err(e) => mix_spec(*args, program_state.clr_std, *term) == Err::<Seq<Rgba>, ParseError>(
                e,
            ),
        },
{
    let colors: Vec<ColorRepresentation> = match mix(args, &program_state.clr_std, term) {
        Ok(colors) => colors,
        Err(e) => {
            return Err(e);
        },
    };
    let mut lines: Vec<String> = Vec::new();
    let mut i: usize = 0;
    while i < colors.len()
        invariant
            i <= colors.len(),
            lines.len() == i,
            forall|j: int|
                0 <= j < i ==> (#[trigger] lines[j])@ == formatted_output_clr_spec(
                    colors[j]@,
                    program_state.output_type@,
                    false,
                ),
        decreases colors.len() - i,
    {
        lines.push(program_state.output_type.render_output(&colors[i], false));
        i += 1;
    }
    Ok(lines)
}

/// The three channels of a colour.
pub open spec fn channels_of(c: Rgba) -> [i64; 3] {
    [c.r as i64, c.g as i64, c.b as i64]
}

/// The contrasts of a colour against the first `upto` of a list of
/// colours, or the error of the first that cannot be read.
pub open spec fn contrasts(
    base: Rgba,
    colors: Seq<String>,
    clr_std: ColorNameStandard,
    term: [[u8; 3]; 16],
    upto: int,
) -> Result<Seq<int>, ParseError>
    decreases upto,
{
    if upto <= 0 || upto > colors.len() {
        Ok(Seq::<int>::empty())
    } else {
        match contrasts(base, colors, clr_std, term, upto - 1) {
            Err(e) => Err(e),
            Ok(before) => match parse_color(colors[upto - 1]@, clr_std, term) {
                Err(e) => Err(e),
                Ok(c) => Ok(before.push(contrast_spec(channels_of(base), channels_of(c)))),
            },
        }
    }
}

/// What the contrast command works out: the contrast of the colour of the
/// session against each colour of the command.
pub fn contrast_action(args: &ContrastArgs, program_state: &ProgramState, term: &[[u8; 3]; 16])
    -> (r: Result<Vec<i64>, ParseError>)
    ensures
        match r {
            Ok(ratios) => contrasts(
                program_state.curr_color@,
                args.colors@,
                program_state.clr_std,
                *term,
                args.colors.len() as int,
            ) == Ok::<Seq<int>, ParseError>(Seq::new(ratios.len() as nat, |i: int| ratios[i] as int)),
            Err(e) => contrasts(
                program_state.curr_color@,
                args.colors@,
                program_state.clr_std,
                *term,
                args.colors.len() as int,
            ) == Err::<Seq<int>, ParseError>(e),
        },
{
    let initial: (i64, i64, i64) = program_state.curr_color.rgb();
    let clr1: [i64; 3] = [initial.0, initial.1, initial.2];
    let mut ratios: Vec<i64> = Vec::new();
    let mut i: usize = 0;
    proof {
        assert(Seq::new(0, |j: int| ratios[j] as int) =~= Seq::<int>::empty());
        assert(clr1 == channels_of(program_state.curr_color@));
    }
    while i < args.colors.len()
        invariant
            i <= args.colors.len(),
            ratios.len() == i,
            clr1 == channels_of(program_state.curr_color@),
            program_state.curr_color@.wf(),
            contrasts(
                program_state.curr_color@,
                args.colors@,
                program_state.clr_std,
                *term,
                i as int,
            ) == Ok::<Seq<int>, ParseError>(Seq::new(i as nat, |j: int| ratios[j] as int)),
        decreases args.colors.len() - i,
    {
        let ghost before = Seq::new(i as nat, |j: int| ratios[j] as int);
        match ColorRepresentation::from_color(
            args.colors[i].as_str(),
            &program_state.clr_std,
            term,
        ) {
            Ok(repr) => {
                let rgb: (i64, i64, i64) = repr.rgb();
                let clr2: [i64; 3] = [rgb.0, rgb.1, rgb.2];
                assert(clr2 == channels_of(repr@));
                let ratio: i64 = contrast(clr1, clr2);
                ratios.push(ratio);
                proof {
                    assert(Seq::new((i + 1) as nat, |j: int| ratios[j] as int) =~= before.push(
                        ratio as int,
                    ));
                }
            },
            Err(e) => {
                proof {
                    lemma_contrasts_error(
                        program_state.curr_color@,
                        args.colors@,
                        program_state.clr_std,
                        *term,
                        i + 1,
                        args.colors.len() as int,
                    );
                }
                return Err(e);
            },
        }
        i += 1;
    }
    Ok(ratios)
}

proof fn lemma_contrasts_error(
    base: Rgba,
    colors: Seq<String>,
    clr_std: ColorNameStandard,
    term: [[u8; 3]; 16],
    short: int,
    long: int,
)
    requires
        0 <= short <= long <= colors.len(),
        contrasts(base, colors, clr_std, term, short) is Err,
    ensures
        contrasts(base, colors, clr_std, term, long) == contrasts(
            base,
            colors,
            clr_std,
            term,
            short,
        ),
    decreases long,
{
    if short < long {
        lemma_contrasts_error(base, colors, clr_std, term, short, long - 1);
    }
}

} // verus!
