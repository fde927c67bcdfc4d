//! The dialog as a state machine: where it stands, what came in, what to do.
//!
//! The caller owns the outside world. It prints, reads a line, tries to read
//! the line as a number, and hands the outcome to [`step`], which answers
//! with the next stage and with what is to be done now. The dialog never
//! looks into a temperature: `T` is whatever the caller keeps one in.

use crate::unit::{choice_of_line, parse_unit_choice, UnitChoice, UnitError};
use vstd::prelude::*;

verus! {

/// Where the dialog stands.
#[derive(Debug, PartialEq)]
pub enum Stage<T> {
    /// The temperature is asked for and not yet given.
    AwaitTemperature,
    /// The temperature is known; the unit code is asked for.
    AwaitUnit { temperature: T },
    /// The conversion was made. Nothing follows.
    Finished,
    /// The input could not be read. Nothing follows.
    Aborted,
}

/// What the caller got when it tried to read a line.
#[derive(Debug, PartialEq)]
pub enum Input<T> {
    /// No line could be read: the stream is closed or broken.
    Closed,
    /// A line was read. `reading` is the temperature that the trimmed line
    /// parses as, or `None` where it does not parse as a number.
    Line { text: String, reading: Option<T> },
}

/// Why a line was turned down.
#[derive(Clone, Copy, Debug, PartialEq, Eq, Structural)]
pub enum Rejection {
    /// A temperature was asked for and the line is no number.
    InvalidTemperature,
    /// A unit code was asked for and the line is none.
    Unit(UnitError),
}

/// What the caller is to do after a step.
#[derive(Debug, PartialEq)]
pub enum Reply<T> {
    /// Say why the line was turned down, and ask the same question again.
    Retry(Rejection),
    /// Show the temperature that was accepted, and go on to the next question.
    Echo { temperature: T },
    /// Convert `temperature` as `choice` demands, show the result, and end.
    Convert { temperature: T, choice: UnitChoice },
    /// End at once, as a failure: the input cannot be read.
    Abort,
    /// Nothing: the dialog was over before this input came.
    Idle,
}

impl<T> Stage<T> {
    /// Whether the dialog has ended, well or badly.
    pub open spec fn is_over(self) -> bool {
        self is Finished || self is Aborted
    }

    /// Whether the dialog has ended, well or badly.
    pub fn over(&self) -> (r: bool)
        ensures
            r == self.is_over(),
    {
        match self {
            Stage::Finished => true,
            Stage::Aborted => true,
            _ => false,
        }
    }
}

/// The transition relation of the dialog, as a function.
///
/// A closed input ends a waiting dialog as `Aborted`, whatever was asked. A
/// line that answers the question moves the dialog on; one that does not
/// leaves the stage as it was and is answered with `Retry`. The number of
/// retries is not bounded. Once the dialog is over, nothing moves it.
pub open spec fn step_of<T>(stage: Stage<T>, input: Input<T>) -> (Stage<T>, Reply<T>) {
    match stage {
        Stage::AwaitTemperature => match input {
            Input::Closed => (Stage::Aborted, Reply::Abort),
            Input::Line { text, reading } => match reading {
                Some(temperature) => (Stage::AwaitUnit { temperature }, Reply::Echo { temperature }),
                None => (stage, Reply::Retry(Rejection::InvalidTemperature)),
            },
        },
        Stage::AwaitUnit { temperature } => match input {
            Input::Closed => (Stage::Aborted, Reply::Abort),
            Input::Line { text, reading } => match choice_of_line(text@) {
                Ok(choice) => (Stage::Finished, Reply::Convert { temperature, choice }),
                Err(e) => (stage, Reply::Retry(Rejection::Unit(e))),
            },
        },
        Stage::Finished => (stage, Reply::Idle),
        Stage::Aborted => (stage, Reply::Idle),
    }
}

/// The stage in which every dialog begins.
pub fn start<T>() -> (r: Stage<T>)
    ensures
        r == Stage::<T>::AwaitTemperature,
{
    Stage::AwaitTemperature
}

/// Takes one input in `stage` and answers with the next stage and the reply.
pub fn step<T: Copy>(stage: Stage<T>, input: &Input<T>) -> (r: (Stage<T>, Reply<T>))
    ensures
        r == step_of(stage, *input),
{
    match stage {
        Stage::AwaitTemperature => match input {
            Input::Closed => (Stage::Aborted, Reply::Abort),
            Input::Line { text, reading } => match reading {
                Some(temperature) => (
                    Stage::AwaitUnit { temperature: *temperature },
                    Reply::Echo { temperature: *temperature },
                ),
                None => (stage, Reply::Retry(Rejection::InvalidTemperature)),
            },
        },
        Stage::AwaitUnit { temperature } => match input {
            Input::Closed => (Stage::Aborted, Reply::Abort),
            Input::Line { text, reading } => match parse_unit_choice(text.as_str()) {
                Ok(choice) => (Stage::Finished, Reply::Convert { temperature, choice }),
                Err(e) => (stage, Reply::Retry(Rejection::Unit(e))),
            },
        },
        Stage::Finished => (stage, Reply::Idle),
        Stage::Aborted => (stage, Reply::Idle),
    }
}

} // verus!
