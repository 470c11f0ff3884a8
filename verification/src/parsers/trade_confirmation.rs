//! Reader of trade confirmation statements.

use crate::error::ParseError;
use crate::types::trade_confirmation::TradeConfirmationStatement;
use crate::version::is_xml_error;
use vstd::prelude::*;
use vstd::string::StringExecFns;

verus! {

/// Reads a trade confirmation statement. This crate works on records that
/// are already typed and does not read the document: every call reports an
/// XML error that says so.
pub fn parse_trade_confirmation(xml: &str) -> (r: Result<TradeConfirmationStatement, ParseError>)
    ensures
        r matches Err(error) && is_xml_error(
            error,
            "Trade Confirmation parser not yet implemented"@,
        ),
{
    Err(
        ParseError::XmlError {
            message: String::from_str("Trade Confirmation parser not yet implemented"),
            location: None,
        },
    )
}

} // verus!
