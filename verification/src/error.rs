//! Errors of reading a statement.

use vstd::prelude::*;
use vstd::string::StringExecFns;

verus! {

/// What can go wrong while a statement is read.
#[derive(Debug)]
pub enum ParseError {
    /// The document is not the XML that was expected.
    XmlError {
        /// What the reader reports.
        message: String,
        /// Where in the document, if known.
        location: Option<String>,
    },
    /// A date is not in the expected format.
    InvalidDate(String),
    /// A decimal number is not in the expected format.
    InvalidDecimal(String),
    /// A required field is missing.
    MissingField {
        /// Name of the missing field.
        field: String,
        /// Where the field was expected.
        context: String,
    },
    /// A value is none of the variants of its enumeration.
    UnknownEnumVariant {
        /// The value found.
        variant: String,
        /// Name of the enumeration.
        enum_type: String,
    },
    /// The statement follows a schema version that is not supported.
    UnsupportedSchemaVersion(String),
    /// Reading the document failed; the text describes the failure.
    Io(String),
}

/// The text that describes an error.
pub open spec fn description_of(error: ParseError) -> Seq<char> {
    match error {
        ParseError::XmlError { message, location } => "XML deserialization error: "@ + message@,
        ParseError::InvalidDate(text) => "Invalid date format: "@ + text@,
        ParseError::InvalidDecimal(text) => "Invalid decimal format: "@ + text@,
        ParseError::MissingField { field, context } => "Missing required field: "@ + field@
            + " in "@ + context@,
        ParseError::UnknownEnumVariant { variant, enum_type } => "Unknown enum variant: "@
            + variant@ + " for type "@ + enum_type@,
        ParseError::UnsupportedSchemaVersion(text) => "Unsupported FLEX schema version: "@ + text@,
        ParseError::Io(text) => "IO error: "@ + text@,
    }
}

impl ParseError {
    /// Describes the error in one line.
    pub fn description(&self) -> (r: String)
        ensures
            r@ == description_of(*self),
    {
        match self {
            ParseError::XmlError { message, location } => String::from_str(
                "XML deserialization error: ",
            ).concat(message.as_str()),
            ParseError::InvalidDate(text) => String::from_str("Invalid date format: ").concat(
                text.as_str(),
            ),
            ParseError::InvalidDecimal(text) => String::from_str("Invalid decimal format: ").concat(
                text.as_str(),
            ),
            ParseError::MissingField { field, context } => String::from_str(
                "Missing required field: ",
            ).concat(field.as_str()).concat(" in ").concat(context.as_str()),
            ParseError::UnknownEnumVariant { variant, enum_type } => String::from_str(
                "Unknown enum variant: ",
            ).concat(variant.as_str()).concat(" for type ").concat(enum_type.as_str()),
            ParseError::UnsupportedSchemaVersion(text) => String::from_str(
                "Unsupported FLEX schema version: ",
            ).concat(text.as_str()),
            ParseError::Io(text) => String::from_str("IO error: ").concat(text.as_str()),
        }
    }
}

} // verus!
