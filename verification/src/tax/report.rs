//! The whole analysis of one tax year.

use crate::date::Date;
use crate::tax::activity_index::ActivityEntry;
use crate::tax::cash_flow::{cash_totals, categorize_cash_flows, CashFlowTotals};
use crate::tax::gains::{
    activity_of, analyze_trades, capital_gains, counts_for, entry_of, realized_total,
    totals_exact, wash_sales, CapitalGainsSummary,
};
use crate::tax::period::{calendar_year_days, TaxPeriod};
use crate::tax::restriction::{
    find_restricted_positions, restricted_positions, window_fits, RestrictedPosition,
};
use crate::tax::wash_sale::WashSale;
use crate::types::activity::{CashTransaction, Position, Trade};
use vstd::prelude::*;

verus! {

/// Why an analysis gives no report.
#[derive(Clone, Copy, Debug, PartialEq, Eq, Structural)]
pub enum TaxError {
    /// The calendar has no such year.
    YearOutOfRange,
    /// A running total left the range of an amount.
    AmountOverflow,
}

/// What the analysis of a tax year yields.
#[derive(Debug)]
pub struct TaxReport {
    /// Capital gains and losses by holding period.
    pub capital_gains: CapitalGainsSummary,
    /// The wash sales, in the order of their trades.
    pub wash_sales: Vec<WashSale>,
    /// The open positions under a wash-sale restriction.
    pub restricted_positions: Vec<RestrictedPosition>,
    /// Dividends, withholding tax and interest.
    pub cash_flows: CashFlowTotals,
    /// Whether every addition to the four capital-gains totals was made
    /// without rounding. The totals then reconcile with the counted trades.
    pub reconciled: bool,
}

/// Whether `result` is the outcome of analysing the records for `period` as
/// of day `as_of`: a report with the four results where no total leaves the
/// range of an amount, the overflow error where one does.
pub open spec fn is_outcome_of(
    result: Result<TaxReport, TaxError>,
    period: TaxPeriod,
    as_of: int,
    trades: Seq<Trade>,
    positions: Seq<Position>,
    cash_transactions: Seq<CashTransaction>,
) -> bool {
    match (capital_gains(trades, period), cash_totals(cash_transactions, period)) {
        (Some(summary), Some(totals)) => {
            &&& result matches Ok(report)
            &&& report.capital_gains == summary
            &&& report.wash_sales@ == wash_sales(trades, period)
            &&& report.restricted_positions@ == restricted_positions(
                positions,
                |symbol: Seq<char>| activity_of(trades, period, symbol),
                as_of,
            )
            &&& report.cash_flows == totals
            &&& report.reconciled == totals_exact(trades, period)
            &&& report.reconciled ==> summary.net_value() == realized_total(trades, period)
        },
        _ => result == Err::<TaxReport, TaxError>(TaxError::AmountOverflow),
    }
}

/// Every index entry of a symbol stems from a counted trade of that symbol.
pub proof fn lemma_activity_stems_from_trades(
    trades: Seq<Trade>,
    period: TaxPeriod,
    symbol: Seq<char>,
)
    ensures
        forall|k: int|
            0 <= k < activity_of(trades, period, symbol).len() ==> {
                let entry = #[trigger] activity_of(trades, period, symbol)[k];
                exists|i: int|
                    0 <= i < trades.len() && counts_for(#[trigger] trades[i], period)
                        && trades[i].symbol@ == symbol && entry == entry_of(trades[i])
            },
    decreases trades.len(),
{
    if trades.len() > 0 {
        let earlier = trades.drop_last();
        lemma_activity_stems_from_trades(earlier, period, symbol);
        assert forall|k: int| 0 <= k < activity_of(trades, period, symbol).len() implies {
            let entry = #[trigger] activity_of(trades, period, symbol)[k];
            exists|i: int|
                0 <= i < trades.len() && counts_for(#[trigger] trades[i], period)
                    && trades[i].symbol@ == symbol && entry == entry_of(trades[i])
        } by {
            let entry = activity_of(trades, period, symbol)[k];
            if k < activity_of(earlier, period, symbol).len() {
                assert(entry == activity_of(earlier, period, symbol)[k]);
                let i = choose|i: int|
                    0 <= i < earlier.len() && counts_for(#[trigger] earlier[i], period)
                        && earlier[i].symbol@ == symbol && entry == entry_of(earlier[i]);
                assert(trades[i] == earlier[i]);
            } else {
                assert(trades[trades.len() - 1] == trades.last());
            }
        }
    }
}

/// Analyses the records of an account for a period: capital gains, wash
/// sales, restricted positions as of `as_of`, and cash flows.
pub fn analyze_period(
    period: &TaxPeriod,
    as_of: Date,
    trades: &Vec<Trade>,
    positions: &Vec<Position>,
    cash_transactions: &Vec<CashTransaction>,
) -> (r: Result<TaxReport, TaxError>)
    requires
        forall|i: int| 0 <= i < trades@.len() ==> window_fits(#[trigger] trades@[i].trade_date),
    ensures
        is_outcome_of(r, *period, as_of@, trades@, positions@, cash_transactions@),
{
    let found = match analyze_trades(trades, period) {
        Some(found) => found,
        None => {
            return Err(TaxError::AmountOverflow);
        },
    };
    let cash_flows = match categorize_cash_flows(cash_transactions, period) {
        Some(totals) => totals,
        None => {
            return Err(TaxError::AmountOverflow);
        },
    };
    proof {
        assert forall|symbol: Seq<char>, k: int|
            0 <= k < found.activity.entries_for(symbol).len() implies window_fits(
            #[trigger] found.activity.entries_for(symbol)[k].trade_date,
        ) by {
            lemma_activity_stems_from_trades(trades@, *period, symbol);
            assert(found.activity.entries_for(symbol) == activity_of(trades@, *period, symbol));
            let entry = activity_of(trades@, *period, symbol)[k];
            let i = choose|i: int|
                0 <= i < trades@.len() && counts_for(#[trigger] trades@[i], *period)
                    && trades@[i].symbol@ == symbol && entry == entry_of(trades@[i]);
            assert(window_fits(trades@[i].trade_date));
        }
    }
    let restricted = find_restricted_positions(positions, &found.activity, as_of);
    proof {
        let by_index = |symbol: Seq<char>| found.activity.entries_for(symbol);
        let by_trades = |symbol: Seq<char>| activity_of(trades@, *period, symbol);
        assert forall|symbol: Seq<char>| #[trigger] by_index(symbol) == by_trades(symbol) by {
            assert(found.activity.entries_for(symbol) == activity_of(trades@, *period, symbol));
        }
        assert(by_index =~= by_trades);
    }
    Ok(
        TaxReport {
            capital_gains: found.capital_gains,
            wash_sales: found.wash_sales,
            restricted_positions: restricted,
            cash_flows,
            reconciled: found.reconciled,
        },
    )
}

/// Analyses the records of an account for a calendar year.
pub fn analyze(
    tax_year: i32,
    as_of: Date,
    trades: &Vec<Trade>,
    positions: &Vec<Position>,
    cash_transactions: &Vec<CashTransaction>,
) -> (r: Result<TaxReport, TaxError>)
    requires
        forall|i: int| 0 <= i < trades@.len() ==> window_fits(#[trigger] trades@[i].trade_date),
    ensures
        match calendar_year_days(tax_year as int) {
            Some((first, last)) => exists|period: TaxPeriod|
                period.first_day@ == first && period.last_day@ == last && #[trigger] is_outcome_of(
                    r,
                    period,
                    as_of@,
                    trades@,
                    positions@,
                    cash_transactions@,
                ),
            None => r == Err::<TaxReport, TaxError>(TaxError::YearOutOfRange),
        },
{
    match TaxPeriod::calendar_year(tax_year) {
        Some(period) => {
            let r = analyze_period(&period, as_of, trades, positions, cash_transactions);
            assert(is_outcome_of(r, period, as_of@, trades@, positions@, cash_transactions@));
            r
        },
        None => Err(TaxError::YearOutOfRange),
    }
}

} // verus!
