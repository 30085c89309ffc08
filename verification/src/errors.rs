//! Error values returned by the library.

use vstd::prelude::*;

verus! {

/// A value that was read could not be accepted as a well-formed structure.
#[derive(Debug, Clone, Copy, PartialEq, Eq)]
pub enum ParsingError {
    /// The structure broke a rule of its type; the text says which.
    StructParseFailure(&'static str),
}

/// A configuration lacks something that the requested operation needs.
#[derive(Debug)]
pub enum ValidationError {
    /// The named field was never populated.
    MissingRequiredField { field_name: String },
}

impl ParsingError {
    /// The reason that the error carries.
    pub fn reason(&self) -> (text: &'static str)
        ensures
            *self == ParsingError::StructParseFailure(text),
    {
        match self {
            ParsingError::StructParseFailure(text) => text,
        }
    }
}

impl ValidationError {
    /// The name of the field that the error reports.
    pub fn missing_field(&self) -> (name: &str)
        ensures
            self matches ValidationError::MissingRequiredField { field_name }
                && name@ == field_name@,
    {
        match self {
            ValidationError::MissingRequiredField { field_name } => field_name.as_str(),
        }
    }
}

} // verus!
