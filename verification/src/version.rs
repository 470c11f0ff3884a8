//! Schema version and kind of a statement.

use crate::error::ParseError;
use vstd::prelude::*;
use vstd::string::StringExecFns;

verus! {

/// Schema versions of a statement.
#[derive(Clone, Copy, Debug, PartialEq, Eq, Structural)]
pub enum FlexSchemaVersion {
    /// Version 3, the current one.
    V3,
}

/// Kinds of statement.
#[derive(Clone, Copy, Debug, PartialEq, Eq, Structural)]
pub enum StatementType {
    /// An activity statement.
    Activity,
    /// A trade confirmation.
    TradeConfirmation,
}

/// Whether an error is the XML error with the given message and without a
/// location.
pub open spec fn is_xml_error(error: ParseError, text: Seq<char>) -> bool {
    error matches ParseError::XmlError { message, location } && message@ == text && location
        is None
}

/// The schema version of a statement. Every document is taken to follow
/// version 3: the document is not looked at.
pub fn detect_version(xml: &str) -> (r: Result<FlexSchemaVersion, ParseError>)
    ensures
        r matches Ok(version) && version == FlexSchemaVersion::V3,
{
    Ok(FlexSchemaVersion::V3)
}

/// The kind of a statement. The kind is not read off the document: every
/// call reports an XML error that says so.
pub fn detect_statement_type(xml: &str) -> (r: Result<StatementType, ParseError>)
    ensures
        r matches Err(error) && is_xml_error(
            error,
            "Statement type detection not yet implemented"@,
        ),
{
    Err(
        ParseError::XmlError {
            message: String::from_str("Statement type detection not yet implemented"),
            location: None,
        },
    )
}

} // verus!
