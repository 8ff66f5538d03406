//! What can be wrong with the text of a colour.

use vstd::prelude::*;

verus! {

/// Why a text could not be read as a colour or as a number. None of these
/// changes any state: the caller reports the error and goes on.
#[derive(Clone, Copy, Debug, PartialEq, Eq, Structural)]
pub enum ParseError {
    /// The text is too short for the form that it opens with.
    Malformed,
    /// A form lists fewer numbers than it needs.
    MissingField,
    /// A field is no number, or no number that its channel can hold.
    InvalidNumber,
    /// A hexadecimal form holds a character that is no hexadecimal digit.
    InvalidHex,
    /// The text has none of the known forms and is no known colour name.
    UnknownName,
}

impl ParseError {
    /// A short description for the user.
    pub fn message(&self) -> (text: &'static str)
        ensures
            text@ == match *self {
                ParseError::Malformed => "incomplete color"@,
                ParseError::MissingField => "missing number"@,
                ParseError::InvalidNumber => "invalid number"@,
                ParseError::InvalidHex => "invalid hex digit"@,
                ParseError::UnknownName => "unknown color name"@,
            },
    {
        match self {
            ParseError::Malformed => "incomplete color",
            ParseError::MissingField => "missing number",
            ParseError::InvalidNumber => "invalid number",
            ParseError::InvalidHex => "invalid hex digit",
            ParseError::UnknownName => "unknown color name",
        }
    }
}

} // verus!
