//! The error taxonomy of the boundary layer: errors the host reports
//! through a call's error slot, conversion failures between typed and
//! dynamic values, and rejections of textual range literals.

use vstd::prelude::*;
use crate::object::ObjectTag;

verus! {

/// The host's classification of why it rejected a call.
#[derive(Clone, Copy, PartialEq, Eq, Structural, Debug)]
pub enum ErrorCategory {
    /// An internal host failure while executing the call.
    Exception,
    /// The host judged the call's arguments invalid.
    Validation,
}

/// An error the host reported through a call's error slot, carrying the
/// host-provided message text.
#[derive(Clone, Debug, PartialEq, Eq)]
pub struct HostError {
    pub category: ErrorCategory,
    pub message: Vec<u8>,
}

/// A received or to-be-sent value did not match the expected shape or
/// range for its target type.
#[derive(Clone, Copy, PartialEq, Eq, Structural, Debug)]
pub enum ConversionError {
    /// The dynamic tag matched none of the shapes the target accepts.
    WrongTag { expected: ObjectTag, actual: ObjectTag },
    /// A wide integer did not fit the narrower target; it is rejected
    /// rather than truncated silently.
    OutOfRange { value: i64 },
}

/// A textual range literal matched none of the accepted forms.
#[derive(Clone, Copy, PartialEq, Eq, Structural, Debug)]
pub struct ParseError {}

impl ParseError {
    /// A description of the accepted forms, for error messages.
    pub fn accepted_forms() -> (r: &'static str)
        ensures
            r@ == "\".\", \"%\" or an integer"@,
    {
        "\".\", \"%\" or an integer"
    }
}

/// Any failure of a boundary call: an error the host reported, a value
/// that did not convert, or a literal that parsed to no accepted form.
#[derive(Clone, Debug, PartialEq, Eq)]
pub enum CallError {
    Host(HostError),
    Conversion(ConversionError),
    Parse(ParseError),
}

} // verus!
