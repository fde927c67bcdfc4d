//! The unit code that selects a conversion, and how a line is read as one.

use crate::text::{is_blank, is_white_space, trimmed, trimmed_bounds, trimmed_of_padded};
use vstd::prelude::*;
use vstd::string::StrSliceExecFns;

verus! {

/// What the user asks for: `F` selects `ToFahrenheit`, `C` selects `ToCelsius`.
#[derive(Clone, Copy, Debug, PartialEq, Eq, Structural)]
pub enum UnitChoice {
    ToFahrenheit,
    ToCelsius,
}

/// Why a line was not accepted as a unit code.
#[derive(Clone, Copy, Debug, PartialEq, Eq, Structural)]
pub enum UnitError {
    /// The trimmed line is not exactly one character.
    NotAChar,
    /// The trimmed line is one character, but neither `F` nor `C`.
    NotAValidChoice,
}

/// The two conversions, each named by the scale it reads and the scale it gives.
#[derive(Clone, Copy, Debug, PartialEq, Eq, Structural)]
pub enum Formula {
    /// `(c / 0.5556) + 32`
    CelsiusToFahrenheit,
    /// `(f - 32) * 0.5556`
    FahrenheitToCelsius,
}

/// The character that selects `choice`.
pub open spec fn code_of(choice: UnitChoice) -> char {
    match choice {
        UnitChoice::ToFahrenheit => 'F',
        UnitChoice::ToCelsius => 'C',
    }
}

/// The choice that a single character stands for. Only the capitals count.
pub open spec fn choice_of_code(c: char) -> Option<UnitChoice> {
    if c == 'F' {
        Some(UnitChoice::ToFahrenheit)
    } else if c == 'C' {
        Some(UnitChoice::ToCelsius)
    } else {
        None
    }
}

/// What a line that has already been trimmed to `t` is read as.
pub open spec fn choice_of_trimmed(t: Seq<char>) -> Result<UnitChoice, UnitError> {
    if t.len() != 1 {
        Err(UnitError::NotAChar)
    } else {
        match choice_of_code(t[0]) {
            Some(choice) => Ok(choice),
            None => Err(UnitError::NotAValidChoice),
        }
    }
}

/// What a raw line of input is read as.
pub open spec fn choice_of_line(line: Seq<char>) -> Result<UnitChoice, UnitError> {
    choice_of_trimmed(trimmed(line))
}

/// The formula that is applied when `choice` was made: `F` runs the
/// conversion from Celsius to Fahrenheit, `C` the one from Fahrenheit to
/// Celsius.
pub open spec fn formula_of(choice: UnitChoice) -> Formula {
    match choice {
        UnitChoice::ToFahrenheit => Formula::CelsiusToFahrenheit,
        UnitChoice::ToCelsius => Formula::FahrenheitToCelsius,
    }
}

/// The unit name that is printed behind the converted value. It names the
/// scale the formula reads, not the one it gives: the result of `F` is shown
/// as "celsius", that of `C` as "fahrenheit".
pub open spec fn label_of(choice: UnitChoice) -> Seq<char> {
    match choice {
        UnitChoice::ToFahrenheit => "celsius"@,
        UnitChoice::ToCelsius => "fahrenheit"@,
    }
}

impl UnitChoice {
    /// The character that selects this choice.
    pub fn code(self) -> (r: char)
        ensures
            r == code_of(self),
    {
        match self {
            UnitChoice::ToFahrenheit => 'F',
            UnitChoice::ToCelsius => 'C',
        }
    }

    /// Reads a single character as a unit code.
    pub fn from_code(c: char) -> (r: Option<UnitChoice>)
        ensures
            r == choice_of_code(c),
    {
        if c == 'F' {
            Some(UnitChoice::ToFahrenheit)
        } else if c == 'C' {
            Some(UnitChoice::ToCelsius)
        } else {
            None
        }
    }

    /// The formula to apply for this choice.
    pub fn formula(self) -> (r: Formula)
        ensures
            r == formula_of(self),
    {
        match self {
            UnitChoice::ToFahrenheit => Formula::CelsiusToFahrenheit,
            UnitChoice::ToCelsius => Formula::FahrenheitToCelsius,
        }
    }

    /// The unit name to print behind the converted value.
    pub fn label(self) -> (r: &'static str)
        ensures
            r@ == label_of(self),
    {
        match self {
            UnitChoice::ToFahrenheit => "celsius",
            UnitChoice::ToCelsius => "fahrenheit",
        }
    }
}

/// Reads a line of input as a unit code: the line is trimmed, must then be
/// exactly one character, and that character must be `F` or `C`.
pub fn parse_unit_choice(line: &str) -> (r: Result<UnitChoice, UnitError>)
    ensures
        r == choice_of_line(line@),
        r is Ok <==> trimmed(line@) == seq!['F'] || trimmed(line@) == seq!['C'],
{
    let t = line.trim();
    if t.unicode_len() != 1 {
        return Err(UnitError::NotAChar);
    }
    let c = t.get_char(0);
    assert(t@ == seq![c]);
    match UnitChoice::from_code(c) {
        Some(choice) => Ok(choice),
        None => Err(UnitError::NotAValidChoice),
    }
}

/// Whether `line` is the character `c` with nothing but white space before
/// and after it.
pub open spec fn is_padded(line: Seq<char>, c: char) -> bool {
    exists|i: int|
        0 <= i < line.len() && (#[trigger] line[i]) == c && is_blank(line.take(i)) && is_blank(
            line.skip(i + 1),
        )
}

/// The lines that are accepted: a line is read as `choice` exactly where it
/// is the code of `choice`, in that very case, with nothing but white space
/// around it. Every other line is turned down.
pub proof fn accepted_lines_are_padded_codes(line: Seq<char>, choice: UnitChoice)
    ensures
        choice_of_line(line) == Ok::<UnitChoice, UnitError>(choice) <==> is_padded(
            line,
            code_of(choice),
        ),
{
    let c = code_of(choice);
    if choice_of_line(line) == Ok::<UnitChoice, UnitError>(choice) {
        let (from, to) = trimmed_bounds(line);
        assert(trimmed(line)[0] == line[from]);
        assert(line[from] == c);
    }
    if is_padded(line, c) {
        let i = choose|i: int|
            0 <= i < line.len() && (#[trigger] line[i]) == c && is_blank(line.take(i)) && is_blank(
                line.skip(i + 1),
            );
        assert(line == line.take(i) + seq![c] + line.skip(i + 1));
        assert(!is_white_space(c));
        trimmed_of_padded(line.take(i), seq![c], line.skip(i + 1));
    }
}

/// Every character stands for at most the choice whose code it is: reading
/// a code and asking for the code of what was read gives the character back.
pub proof fn codes_and_choices_agree(c: char, choice: UnitChoice)
    ensures
        choice_of_code(c) == Some(choice) <==> c == code_of(choice),
{
}

} // verus!
