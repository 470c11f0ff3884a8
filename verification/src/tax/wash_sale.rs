//! Wash sales: flagged trades that realized a loss.

use crate::date::Date;
use crate::money::Amount;
use crate::notes::{is_wash_sale_flagged, notes_flag_wash_sale};
use crate::types::activity::Trade;
use vstd::prelude::*;

verus! {

/// A loss that the wash-sale rule disallows.
#[derive(Debug)]
pub struct WashSale {
    /// Ticker symbol of the security sold.
    pub symbol: String,
    /// Day of the sale.
    pub sell_date: Date,
    /// The realized loss, below zero.
    pub loss_amount: Amount,
    /// The part of the loss that is disallowed: all of it, as a magnitude.
    pub disallowed_amount: Amount,
    /// Day of the replacing purchase. The engine does not look for it and
    /// leaves it unset.
    pub repurchase_date: Option<Date>,
}

/// Whether a trade with realized profit or loss `pnl` is recorded as a wash
/// sale: its notes mark it, and it realized a loss.
pub open spec fn is_wash_sale_loss(trade: Trade, pnl: Amount) -> bool {
    is_wash_sale_flagged(trade.notes) && pnl.mantissa() < 0
}

/// The record of a wash sale for a trade that realized the loss `pnl`.
pub open spec fn wash_sale_record(trade: Trade, pnl: Amount) -> WashSale {
    WashSale {
        symbol: trade.symbol,
        sell_date: trade.trade_date,
        loss_amount: pnl,
        disallowed_amount: pnl.magnitude(),
        repurchase_date: None,
    }
}

/// Decides from the wash-sale flag and the realized profit or loss whether a
/// trade is recorded: a flagged trade without a loss is not.
pub fn records_wash_sale(flagged: bool, pnl: &Amount) -> (r: bool)
    ensures
        r == (flagged && pnl.mantissa() < 0),
{
    flagged && pnl.is_negative()
}

/// The wash-sale record of a trade whose notes are known to flag a wash
/// sale or not, if the trade is recorded as one.
pub fn wash_sale_if(trade: &Trade, pnl: &Amount, flagged: bool) -> (r: Option<WashSale>)
    ensures
        flagged && pnl.mantissa() < 0 ==> r == Some(wash_sale_record(*trade, *pnl)),
        !(flagged && pnl.mantissa() < 0) ==> r is None,
{
    if records_wash_sale(flagged, pnl) {
        Some(
            WashSale {
                symbol: trade.symbol.clone(),
                sell_date: trade.trade_date,
                loss_amount: *pnl,
                disallowed_amount: pnl.abs(),
                repurchase_date: None,
            },
        )
    } else {
        None
    }
}

/// The wash-sale record of a trade, if the trade is recorded as one.
pub fn detect_wash_sale(trade: &Trade, pnl: &Amount) -> (r: Option<WashSale>)
    ensures
        is_wash_sale_loss(*trade, *pnl) ==> r == Some(wash_sale_record(*trade, *pnl)),
        !is_wash_sale_loss(*trade, *pnl) ==> r is None,
{
    wash_sale_if(trade, pnl, notes_flag_wash_sale(&trade.notes))
}

} // verus!
