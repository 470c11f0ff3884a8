//! Reader of activity statements.

use crate::error::ParseError;
use crate::types::activity::ActivityFlexStatement;
use crate::version::is_xml_error;
use vstd::prelude::*;
use vstd::string::StringExecFns;

verus! {

/// Reads an activity statement. This crate works on records that are
/// already typed and does not read the document: every call reports an XML
/// error that says so.
pub fn parse_activity_flex(xml: &str) -> (r: Result<ActivityFlexStatement, ParseError>)
    ensures
        r matches Err(error) && is_xml_error(error, "Activity FLEX parser not yet implemented"@),
{
    Err(
        ParseError::XmlError {
            message: String::from_str("Activity FLEX parser not yet implemented"),
            location: None,
        },
    )
}

} // verus!
