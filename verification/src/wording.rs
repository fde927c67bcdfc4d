//! What the converter says: the fixed lines, and the two that show a value.

use crate::dialog::{Rejection, Stage};
use crate::unit::{label_of, UnitChoice, UnitError};
use vstd::prelude::*;
use vstd::string::StringExecFns;

verus! {

/// The lines that are always the same.
#[derive(Clone, Copy, Debug, PartialEq, Eq, Structural)]
pub enum Notice {
    /// The banner, said once before anything is asked.
    Welcome,
    /// The question for the temperature.
    AskTemperature,
    /// The answer to a line that is no number.
    InvalidTemperature,
    /// The question for the unit code.
    AskUnit,
    /// The answer to a line that is not one single character.
    NotAChar,
    /// The answer to a single character that is neither `F` nor `C`.
    NotAValidChoice,
    /// The diagnostic with which the program fails when no line can be read.
    ReadFailed,
}

/// The text of each fixed line.
pub open spec fn notice_text(notice: Notice) -> Seq<char> {
    match notice {
        Notice::Welcome => "Welcome to the temperature converter!"@,
        Notice::AskTemperature =>
            "Please input the temperature you would like to convert. We will choose the temperature type next."@,
        Notice::InvalidTemperature => "This is not a valid temperature! Try again..."@,
        Notice::AskUnit =>
            "Please input the temp type we are converting to:\n'F' for fahrenheit\n'C' for celsius."@,
        Notice::NotAChar => "This is not a char! Try again..."@,
        Notice::NotAValidChoice => "Not a valid choice"@,
        Notice::ReadFailed => "Failed to read line"@,
    }
}

/// The question that is put before a line is read in `stage`, if one is.
pub open spec fn question_of<T>(stage: Stage<T>) -> Option<Notice> {
    match stage {
        Stage::AwaitTemperature => Some(Notice::AskTemperature),
        Stage::AwaitUnit { .. } => Some(Notice::AskUnit),
        Stage::Finished => None,
        Stage::Aborted => None,
    }
}

/// The line that answers a rejected input.
pub open spec fn complaint_of(rejection: Rejection) -> Notice {
    match rejection {
        Rejection::InvalidTemperature => Notice::InvalidTemperature,
        Rejection::Unit(UnitError::NotAChar) => Notice::NotAChar,
        Rejection::Unit(UnitError::NotAValidChoice) => Notice::NotAValidChoice,
    }
}

/// The line that shows the accepted temperature, written as `value`.
pub open spec fn chosen_text(value: Seq<char>) -> Seq<char> {
    "Your chosen temperature is: "@ + value
}

/// The line that shows the converted temperature, written as `value`, with
/// the unit name that belongs to `choice`.
pub open spec fn converted_text(value: Seq<char>, choice: UnitChoice) -> Seq<char> {
    "Your converted temp is "@ + value + " "@ + label_of(choice) + "!"@
}

impl Notice {
    /// The text of this line.
    pub fn text(self) -> (r: &'static str)
        ensures
            r@ == notice_text(self),
    {
        match self {
            Notice::Welcome => "Welcome to the temperature converter!",
            Notice::AskTemperature =>
                "Please input the temperature you would like to convert. We will choose the temperature type next.",
            Notice::InvalidTemperature => "This is not a valid temperature! Try again...",
            Notice::AskUnit =>
                "Please input the temp type we are converting to:\n'F' for fahrenheit\n'C' for celsius.",
            Notice::NotAChar => "This is not a char! Try again...",
            Notice::NotAValidChoice => "Not a valid choice",
            Notice::ReadFailed => "Failed to read line",
        }
    }
}

/// The question to put before a line is read in `stage`; `None` once the
/// dialog is over.
pub fn question<T>(stage: &Stage<T>) -> (r: Option<Notice>)
    ensures
        r == question_of(*stage),
{
    match stage {
        Stage::AwaitTemperature => Some(Notice::AskTemperature),
        Stage::AwaitUnit { .. } => Some(Notice::AskUnit),
        Stage::Finished => None,
        Stage::Aborted => None,
    }
}

/// The line with which a rejected input is answered.
pub fn complaint(rejection: Rejection) -> (r: Notice)
    ensures
        r == complaint_of(rejection),
{
    match rejection {
        Rejection::InvalidTemperature => Notice::InvalidTemperature,
        Rejection::Unit(UnitError::NotAChar) => Notice::NotAChar,
        Rejection::Unit(UnitError::NotAValidChoice) => Notice::NotAValidChoice,
    }
}

/// The line that shows the accepted temperature. `value` is the temperature
/// as the caller writes it; no unit is named.
pub fn chosen_line(value: &str) -> (r: String)
    ensures
        r@ == chosen_text(value@),
{
    String::from_str("Your chosen temperature is: ").concat(value)
}

/// The line that shows the converted temperature. `value` is the result as
/// the caller writes it; the unit name behind it is the label of `choice`.
pub fn converted_line(value: &str, choice: UnitChoice) -> (r: String)
    ensures
        r@ == converted_text(value@, choice),
{
    let mut line = String::from_str("Your converted temp is ");
    line.append(value);
    line.append(" ");
    line.append(choice.label());
    line.append("!");
    line
}

} // verus!
