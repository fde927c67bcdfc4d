//! The decisions of an interactive temperature converter.
//!
//! The converter asks for a temperature, then for the unit to convert to, and
//! prints the converted value. This crate holds everything such a program
//! decides: how a line of input is read as a unit code, which formula and
//! which label belong to a unit code, how the dialog moves from one question
//! to the next, and what is said at each point. Reading lines, parsing and
//! computing with floating-point numbers, and printing are left to the caller.

pub mod text;
pub mod unit;
pub mod dialog;
pub mod script;
pub mod wording;
