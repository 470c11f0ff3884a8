//! Short-term or long-term: the holding period of one trade.

use crate::date::{leading_date, Date};
use crate::types::activity::Trade;
use vstd::prelude::*;

verus! {

/// How long a security was held before it was sold.
#[derive(Clone, Copy, Debug, PartialEq, Eq, Structural)]
pub enum HoldingPeriod {
    /// Held for a year or less, or for a time that cannot be told.
    ShortTerm,
    /// Held for more than a year.
    LongTerm,
}

/// Longest holding period in days that still counts as short-term.
pub const SHORT_TERM_DAYS: i64 = 365;

/// The day from which a holding period counts: the day of the opening trade
/// where it is known, else the day that the holding-period text starts with.
pub open spec fn reference_day(opening: Option<Date>, holding_text: Option<String>) -> Option<
    int,
> {
    match opening {
        Some(date) => Some(date@),
        None => match holding_text {
            Some(text) => leading_date(text@),
            None => None,
        },
    }
}

/// The holding period of a sale on `trade_day` of what was acquired on
/// `reference`: long-term if and only if more than 365 days lie between
/// them. Without a reference day it is short-term.
pub open spec fn holding_period_of(trade_day: int, reference: Option<int>) -> HoldingPeriod {
    match reference {
        Some(day) => if trade_day - day > SHORT_TERM_DAYS {
            HoldingPeriod::LongTerm
        } else {
            HoldingPeriod::ShortTerm
        },
        None => HoldingPeriod::ShortTerm,
    }
}

/// The holding period of a trade.
pub open spec fn trade_holding_period(trade: Trade) -> HoldingPeriod {
    holding_period_of(
        trade.trade_date@,
        reference_day(trade.orig_trade_date, trade.holding_period_date_time),
    )
}

/// The view of an optional date.
pub open spec fn day_of(date: Option<Date>) -> Option<int> {
    match date {
        Some(d) => Some(d@),
        None => None,
    }
}

/// Finds the day from which a holding period counts, trying the day of the
/// opening trade first and the holding-period text second.
pub fn reference_date(opening: Option<Date>, holding_text: &Option<String>) -> (r: Option<Date>)
    ensures
        day_of(r) == reference_day(opening, *holding_text),
{
    match opening {
        Some(date) => Some(date),
        None => match holding_text {
            Some(text) => Date::parse_leading(text.as_str()),
            None => None,
        },
    }
}

/// Classifies a sale by the days between the reference day and the trade.
pub fn classify_holding(trade_date: Date, reference: Option<Date>) -> (r: HoldingPeriod)
    ensures
        r == holding_period_of(trade_date@, day_of(reference)),
{
    match reference {
        Some(date) => if trade_date.days_since(date) > SHORT_TERM_DAYS {
            HoldingPeriod::LongTerm
        } else {
            HoldingPeriod::ShortTerm
        },
        None => HoldingPeriod::ShortTerm,
    }
}

/// Classifies a trade as short-term or long-term.
pub fn classify(trade: &Trade) -> (r: HoldingPeriod)
    ensures
        r == trade_holding_period(*trade),
{
    let reference = reference_date(trade.orig_trade_date, &trade.holding_period_date_time);
    classify_holding(trade.trade_date, reference)
}

/// With the day of the opening trade known, a trade is long-term if and only
/// if more than 365 days lie between that day and the trade: 366 days are
/// long-term, 365 are short-term.
pub proof fn lemma_opening_date_decides(trade: Trade)
    requires
        trade.orig_trade_date is Some,
    ensures
        trade_holding_period(trade) == HoldingPeriod::LongTerm <==> trade.trade_date@
            - trade.orig_trade_date->0@ > 365,
        trade.trade_date@ - trade.orig_trade_date->0@ == 366 ==> trade_holding_period(trade)
            == HoldingPeriod::LongTerm,
        trade.trade_date@ - trade.orig_trade_date->0@ == 365 ==> trade_holding_period(trade)
            == HoldingPeriod::ShortTerm,
{
}

/// A trade without the day of its opening trade, and without a
/// holding-period text that starts with a date, is short-term.
pub proof fn lemma_unknown_holding_is_short_term(trade: Trade)
    requires
        trade.orig_trade_date is None,
        trade.holding_period_date_time matches Some(text) ==> leading_date(text@) is None,
    ensures
        trade_holding_period(trade) == HoldingPeriod::ShortTerm,
{
}

} // verus!
