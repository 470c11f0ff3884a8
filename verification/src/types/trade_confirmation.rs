//! The trade confirmation statement.

use crate::date::Date;
use crate::types::activity::Trade;
use vstd::prelude::*;

verus! {

/// A trade confirmation statement: the trades of an account over a span of
/// days.
#[derive(Debug)]
pub struct TradeConfirmationStatement {
    /// Account number.
    pub account_id: String,
    /// First day of the statement.
    pub from_date: Date,
    /// Last day of the statement.
    pub to_date: Date,
    /// The confirmed trades.
    pub trades: Vec<Trade>,
}

} // verus!
