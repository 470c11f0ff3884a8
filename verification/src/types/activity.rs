//! Trades, open positions and cash transactions of an activity statement.

use crate::date::Date;
use crate::money::Amount;
use vstd::prelude::*;

verus! {

/// A single trade execution.
#[derive(Clone, Debug)]
pub struct Trade {
    /// Ticker symbol.
    pub symbol: String,
    /// Contract identifier of the security.
    pub conid: String,
    /// Day on which the trade took place.
    pub trade_date: Date,
    /// Number of shares or contracts.
    pub quantity: Option<Amount>,
    /// Realized profit or loss of a closing trade.
    pub fifo_pnl_realized: Option<Amount>,
    /// Day of the opening trade, where the broker ties the two together.
    pub orig_trade_date: Option<Date>,
    /// Timestamp from which the holding period counts, as free text.
    pub holding_period_date_time: Option<String>,
    /// Free-text notes and codes.
    pub notes: Option<String>,
}

/// An open position snapshot.
#[derive(Clone, Debug)]
pub struct Position {
    /// Ticker symbol.
    pub symbol: String,
    /// Contract identifier of the security.
    pub conid: String,
    /// Position quantity, negative for a short position.
    pub quantity: Amount,
    /// Timestamp at which the position was opened, as free text.
    pub open_date_time: Option<String>,
    /// Timestamp from which the holding period counts, as free text.
    pub holding_period_date_time: Option<String>,
    /// Day of this snapshot.
    pub report_date: Date,
}

/// A cash transaction: a dividend, interest, a fee, a deposit.
#[derive(Clone, Debug)]
pub struct CashTransaction {
    /// Category of the transaction, as the broker names it.
    pub transaction_type: String,
    /// Day of the transaction, where the broker gives one.
    pub date: Option<Date>,
    /// Amount, positive for credits and negative for debits.
    pub amount: Amount,
}

/// The trades of a statement.
#[derive(Debug)]
pub struct TradesWrapper {
    /// The trades, in the order of the statement.
    pub items: Vec<Trade>,
}

/// The open positions of a statement.
#[derive(Debug)]
pub struct PositionsWrapper {
    /// The positions, in the order of the statement.
    pub items: Vec<Position>,
}

/// The cash transactions of a statement.
#[derive(Debug)]
pub struct CashTransactionsWrapper {
    /// The cash transactions, in the order of the statement.
    pub items: Vec<CashTransaction>,
}

/// An activity statement: trades, open positions and cash transactions of
/// an account over a span of days.
#[derive(Debug)]
pub struct ActivityFlexStatement {
    /// Account number.
    pub account_id: String,
    /// First day of the statement.
    pub from_date: Date,
    /// Last day of the statement.
    pub to_date: Date,
    /// When the statement was generated, as the broker writes it.
    pub when_generated: String,
    /// All trades of the period.
    pub trades: TradesWrapper,
    /// Open positions at the end of the period.
    pub positions: PositionsWrapper,
    /// Cash transactions of the period.
    pub cash_transactions: CashTransactionsWrapper,
}

impl Default for TradesWrapper {
    fn default() -> (r: TradesWrapper)
        ensures
            r.items@ == Seq::<Trade>::empty(),
    {
        TradesWrapper { items: Vec::new() }
    }
}

impl Default for PositionsWrapper {
    fn default() -> (r: PositionsWrapper)
        ensures
            r.items@ == Seq::<Position>::empty(),
    {
        PositionsWrapper { items: Vec::new() }
    }
}

impl Default for CashTransactionsWrapper {
    fn default() -> (r: CashTransactionsWrapper)
        ensures
            r.items@ == Seq::<CashTransaction>::empty(),
    {
        CashTransactionsWrapper { items: Vec::new() }
    }
}

} // verus!
