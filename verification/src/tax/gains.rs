//! Capital gains: every counted trade lands in one of four totals.

use crate::money::Amount;
use crate::notes::{is_wash_sale_flagged, notes_flag_wash_sale};
use crate::tax::activity_index::{ActivityEntry, SymbolActivityIndex};
use crate::tax::holding::{classify, trade_holding_period, HoldingPeriod};
use crate::tax::period::TaxPeriod;
use crate::tax::wash_sale::{is_wash_sale_loss, wash_sale_if, wash_sale_record, WashSale};
use crate::types::activity::Trade;
use vstd::prelude::*;

verus! {

/// The four totals of a capital-gains summary.
#[derive(Clone, Copy, Debug, PartialEq, Eq, Structural)]
pub enum Bucket {
    /// Gains on securities held for a year or less.
    ShortTermGains,
    /// Losses on securities held for a year or less.
    ShortTermLosses,
    /// Gains on securities held for more than a year.
    LongTermGains,
    /// Losses on securities held for more than a year.
    LongTermLosses,
}

/// Capital gains and losses by holding period. Each total is a magnitude:
/// losses are kept as positive amounts, and nets are computed on demand.
#[derive(Clone, Copy, Debug, PartialEq, Eq, Structural)]
pub struct CapitalGainsSummary {
    /// Total of the short-term gains.
    pub short_term_gains: Amount,
    /// Total of the short-term losses, as a magnitude.
    pub short_term_losses: Amount,
    /// Total of the long-term gains.
    pub long_term_gains: Amount,
    /// Total of the long-term losses, as a magnitude.
    pub long_term_losses: Amount,
    /// Total of the losses that the wash-sale rule disallows.
    pub wash_sale_disallowed: Amount,
}

/// What the pass over the trades yields.
#[derive(Debug)]
pub struct TradeAnalysis {
    /// Capital gains and losses by holding period.
    pub capital_gains: CapitalGainsSummary,
    /// The wash sales, in the order of their trades.
    pub wash_sales: Vec<WashSale>,
    /// The counted trades by symbol.
    pub activity: SymbolActivityIndex,
    /// Whether every addition to one of the four totals was made without
    /// rounding. The totals then reconcile with the counted trades.
    pub reconciled: bool,
}

/// The total that a trade adds to: gains where the realized amount is zero
/// or above, losses where it is below, short-term or long-term by the
/// holding period.
pub open spec fn bucket_for(pnl: Amount, holding: HoldingPeriod) -> Bucket {
    match holding {
        HoldingPeriod::LongTerm => if pnl.mantissa() >= 0 {
            Bucket::LongTermGains
        } else {
            Bucket::LongTermLosses
        },
        HoldingPeriod::ShortTerm => if pnl.mantissa() >= 0 {
            Bucket::ShortTermGains
        } else {
            Bucket::ShortTermLosses
        },
    }
}

/// Whether a trade counts for the period: it took place in it, and it
/// realized a profit or loss other than zero.
pub open spec fn counts_for(trade: Trade, period: TaxPeriod) -> bool {
    &&& period.covers(trade.trade_date@)
    &&& trade.fifo_pnl_realized matches Some(pnl)
    &&& pnl.mantissa() != 0
}

/// The index entry of a counted trade. A trade without a quantity is
/// entered with quantity zero.
pub open spec fn entry_of(trade: Trade) -> ActivityEntry {
    ActivityEntry {
        trade_date: trade.trade_date,
        realized_pnl: trade.fifo_pnl_realized->0,
        quantity: match trade.quantity {
            Some(quantity) => quantity,
            None => Amount::of_parts(0, 0),
        },
    }
}

impl CapitalGainsSummary {
    /// The summary with every total at zero.
    pub open spec fn empty() -> CapitalGainsSummary {
        CapitalGainsSummary {
            short_term_gains: Amount::of_parts(0, 0),
            short_term_losses: Amount::of_parts(0, 0),
            long_term_gains: Amount::of_parts(0, 0),
            long_term_losses: Amount::of_parts(0, 0),
            wash_sale_disallowed: Amount::of_parts(0, 0),
        }
    }

    /// One of the four totals.
    pub open spec fn total(self, bucket: Bucket) -> Amount {
        match bucket {
            Bucket::ShortTermGains => self.short_term_gains,
            Bucket::ShortTermLosses => self.short_term_losses,
            Bucket::LongTermGains => self.long_term_gains,
            Bucket::LongTermLosses => self.long_term_losses,
        }
    }

    /// The summary with one of the four totals replaced.
    pub open spec fn with_total(self, bucket: Bucket, total: Amount) -> CapitalGainsSummary {
        match bucket {
            Bucket::ShortTermGains => CapitalGainsSummary { short_term_gains: total, ..self },
            Bucket::ShortTermLosses => CapitalGainsSummary { short_term_losses: total, ..self },
            Bucket::LongTermGains => CapitalGainsSummary { long_term_gains: total, ..self },
            Bucket::LongTermLosses => CapitalGainsSummary { long_term_losses: total, ..self },
        }
    }

    /// The summary after a trade that realized `pnl`: the magnitude of `pnl`
    /// is added to the total that `bucket_for` names and, where the trade is
    /// a wash sale with a loss, to the disallowed total as well. `None`
    /// where one of the two sums leaves the range of an amount.
    pub open spec fn recorded(self, pnl: Amount, holding: HoldingPeriod, wash_sale: bool) -> Option<
        CapitalGainsSummary,
    > {
        let disallowed = if wash_sale && pnl.mantissa() < 0 {
            self.wash_sale_disallowed.sum_with(pnl.magnitude())
        } else {
            Some(self.wash_sale_disallowed)
        };
        let bucket = bucket_for(pnl, holding);
        match (disallowed, self.total(bucket).sum_with(pnl.magnitude())) {
            (Some(d), Some(t)) => Some(
                CapitalGainsSummary { wash_sale_disallowed: d, ..self.with_total(bucket, t) },
            ),
            _ => None,
        }
    }

    /// The summary after a counted trade.
    pub open spec fn after_trade(self, trade: Trade) -> Option<CapitalGainsSummary> {
        self.recorded(
            trade.fifo_pnl_realized->0,
            trade_holding_period(trade),
            is_wash_sale_flagged(trade.notes),
        )
    }

    /// Short-term gains less short-term losses, plus long-term gains less
    /// long-term losses, in units of 10^-28.
    pub open spec fn net_value(self) -> int {
        (self.short_term_gains.value() - self.short_term_losses.value()) + (
        self.long_term_gains.value() - self.long_term_losses.value())
    }

    /// Reads one of the four totals.
    pub fn bucket_total(&self, bucket: Bucket) -> (r: Amount)
        ensures
            r == self.total(bucket),
    {
        match bucket {
            Bucket::ShortTermGains => self.short_term_gains,
            Bucket::ShortTermLosses => self.short_term_losses,
            Bucket::LongTermGains => self.long_term_gains,
            Bucket::LongTermLosses => self.long_term_losses,
        }
    }

    /// A summary with every total at zero.
    pub fn new() -> (r: CapitalGainsSummary)
        ensures
            r == CapitalGainsSummary::empty(),
    {
        CapitalGainsSummary {
            short_term_gains: Amount::zero(),
            short_term_losses: Amount::zero(),
            long_term_gains: Amount::zero(),
            long_term_losses: Amount::zero(),
            wash_sale_disallowed: Amount::zero(),
        }
    }

    /// Adds a realized profit or loss to the summary.
    pub fn record(&self, pnl: &Amount, holding: HoldingPeriod, wash_sale: bool) -> (r: Option<
        CapitalGainsSummary,
    >)
        ensures
            r == self.recorded(*pnl, holding, wash_sale),
    {
        let size = pnl.abs();
        let disallowed = if wash_sale && pnl.is_negative() {
            match self.wash_sale_disallowed.checked_add(&size) {
                Some(d) => d,
                None => {
                    return None;
                },
            }
        } else {
            self.wash_sale_disallowed
        };
        let mut next = *self;
        next.wash_sale_disallowed = disallowed;
        match choose_bucket(pnl, holding) {
            Bucket::ShortTermGains => match self.short_term_gains.checked_add(&size) {
                Some(t) => {
                    next.short_term_gains = t;
                },
                None => {
                    return None;
                },
            },
            Bucket::ShortTermLosses => match self.short_term_losses.checked_add(&size) {
                Some(t) => {
                    next.short_term_losses = t;
                },
                None => {
                    return None;
                },
            },
            Bucket::LongTermGains => match self.long_term_gains.checked_add(&size) {
                Some(t) => {
                    next.long_term_gains = t;
                },
                None => {
                    return None;
                },
            },
            Bucket::LongTermLosses => match self.long_term_losses.checked_add(&size) {
                Some(t) => {
                    next.long_term_losses = t;
                },
                None => {
                    return None;
                },
            },
        }
        Some(next)
    }

    /// Short-term gains less short-term losses, or `None` where the
    /// difference leaves the range of an amount.
    pub fn net_short_term(&self) -> (r: Option<Amount>)
        ensures
            r == self.short_term_gains.difference_with(self.short_term_losses),
    {
        self.short_term_gains.checked_sub(&self.short_term_losses)
    }

    /// Long-term gains less long-term losses, or `None` where the
    /// difference leaves the range of an amount.
    pub fn net_long_term(&self) -> (r: Option<Amount>)
        ensures
            r == self.long_term_gains.difference_with(self.long_term_losses),
    {
        self.long_term_gains.checked_sub(&self.long_term_losses)
    }

    /// The short-term net plus the long-term net, or `None` where one of
    /// the three results leaves the range of an amount.
    pub fn total_net(&self) -> (r: Option<Amount>)
        ensures
            r == match (
                self.short_term_gains.difference_with(self.short_term_losses),
                self.long_term_gains.difference_with(self.long_term_losses),
            ) {
                (Some(short), Some(long)) => short.sum_with(long),
                _ => None,
            },
    {
        match (self.net_short_term(), self.net_long_term()) {
            (Some(short), Some(long)) => short.checked_add(&long),
            _ => None,
        }
    }
}

/// Names the total that a realized profit or loss adds to.
pub fn choose_bucket(pnl: &Amount, holding: HoldingPeriod) -> (r: Bucket)
    ensures
        r == bucket_for(*pnl, holding),
{
    match holding {
        HoldingPeriod::LongTerm => if pnl.is_negative() {
            Bucket::LongTermLosses
        } else {
            Bucket::LongTermGains
        },
        HoldingPeriod::ShortTerm => if pnl.is_negative() {
            Bucket::ShortTermLosses
        } else {
            Bucket::ShortTermGains
        },
    }
}

/// The realized profit or loss with which a trade counts for the period, if
/// it counts.
pub fn counted_pnl(trade: &Trade, period: &TaxPeriod) -> (r: Option<Amount>)
    ensures
        counts_for(*trade, *period) ==> r == trade.fifo_pnl_realized,
        !counts_for(*trade, *period) ==> r is None,
{
    if !period.contains(trade.trade_date) {
        return None;
    }
    match trade.fifo_pnl_realized {
        Some(pnl) => if pnl.is_zero() {
            None
        } else {
            Some(pnl)
        },
        None => None,
    }
}

/// The capital-gains summary of the trades that count for the period, taken
/// in order. `None` where a total leaves the range of an amount on the way.
pub open spec fn capital_gains(trades: Seq<Trade>, period: TaxPeriod) -> Option<
    CapitalGainsSummary,
>
    decreases trades.len(),
{
    if trades.len() == 0 {
        Some(CapitalGainsSummary::empty())
    } else {
        match capital_gains(trades.drop_last(), period) {
            Some(summary) => if counts_for(trades.last(), period) {
                summary.after_trade(trades.last())
            } else {
                Some(summary)
            },
            None => None,
        }
    }
}

/// The wash sales among the trades that count for the period, in the order
/// of the trades.
pub open spec fn wash_sales(trades: Seq<Trade>, period: TaxPeriod) -> Seq<WashSale>
    decreases trades.len(),
{
    if trades.len() == 0 {
        Seq::empty()
    } else {
        let earlier = wash_sales(trades.drop_last(), period);
        let trade = trades.last();
        if counts_for(trade, period) && is_wash_sale_loss(trade, trade.fifo_pnl_realized->0) {
            earlier.push(wash_sale_record(trade, trade.fifo_pnl_realized->0))
        } else {
            earlier
        }
    }
}

/// The index entries of the trades of `symbol` that count for the period, in
/// the order of the trades.
pub open spec fn activity_of(trades: Seq<Trade>, period: TaxPeriod, symbol: Seq<char>) -> Seq<
    ActivityEntry,
>
    decreases trades.len(),
{
    if trades.len() == 0 {
        Seq::empty()
    } else {
        let earlier = activity_of(trades.drop_last(), period, symbol);
        let trade = trades.last();
        if counts_for(trade, period) && trade.symbol@ == symbol {
            earlier.push(entry_of(trade))
        } else {
            earlier
        }
    }
}

/// Once a total has left the range of an amount, more trades do not bring
/// the summary back.
pub proof fn lemma_overflow_stays(trades: Seq<Trade>, period: TaxPeriod, count: int)
    requires
        0 <= count <= trades.len(),
        capital_gains(trades.take(count), period) is None,
    ensures
        capital_gains(trades, period) is None,
    decreases trades.len() - count,
{
    if count == trades.len() {
        assert(trades.take(count) =~= trades);
    } else {
        assert(trades.drop_last().take(count) =~= trades.take(count));
        lemma_overflow_stays(trades.drop_last(), period, count);
    }
}

/// Runs over the trades once: sums the capital gains, collects the wash
/// sales and enters every counted trade in the symbol index.
pub fn analyze_trades(trades: &Vec<Trade>, period: &TaxPeriod) -> (r: Option<TradeAnalysis>)
    ensures
        r is None <==> capital_gains(trades@, *period) is None,
        r matches Some(found) ==> {
            &&& capital_gains(trades@, *period) == Some(found.capital_gains)
            &&& found.wash_sales@ == wash_sales(trades@, *period)
            &&& found.activity.wf()
            &&& forall|symbol: Seq<char>| #[trigger]
                found.activity.entries_for(symbol) == activity_of(trades@, *period, symbol)
            &&& found.reconciled == totals_exact(trades@, *period)
            &&& found.reconciled ==> found.capital_gains.net_value() == realized_total(
                trades@,
                *period,
            )
            &&& disallowed_total(found.wash_sales@) == Some(
                found.capital_gains.wash_sale_disallowed,
            )
            &&& forall|k: int|
                0 <= k < found.wash_sales@.len() ==> (#[trigger] found.wash_sales@[k]).loss_amount.mantissa()
                    < 0
        },
{
    let mut summary = CapitalGainsSummary::new();
    let mut found_wash_sales: Vec<WashSale> = Vec::new();
    let mut activity = SymbolActivityIndex::new();
    let mut reconciled = true;
    let mut i: usize = 0;
    assert(trades@.take(0) =~= Seq::<Trade>::empty());
    while i < trades.len()
        invariant
            i <= trades@.len(),
            capital_gains(trades@.take(i as int), *period) == Some(summary),
            found_wash_sales@ == wash_sales(trades@.take(i as int), *period),
            reconciled == totals_exact(trades@.take(i as int), *period),
            forall|k: int|
                0 <= k < i && counts_for(#[trigger] trades@[k], *period)
                    ==> trades@[k].fifo_pnl_realized->0.is_valid(),
            activity.wf(),
            forall|symbol: Seq<char>| #[trigger]
                activity.entries_for(symbol) == activity_of(
                    trades@.take(i as int),
                    *period,
                    symbol,
                ),
        decreases trades@.len() - i,
    {
        let trade = &trades[i];
        let ghost seen = trades@.take(i as int);
        let ghost next = trades@.take(i + 1);
        proof {
            assert(next.drop_last() =~= seen);
            assert(next.last() == *trade);
        }
        match counted_pnl(trade, period) {
            Some(pnl) => {
                proof {
                    use_type_invariant(&pnl);
                }
                let holding = classify(trade);
                let flagged = notes_flag_wash_sale(&trade.notes);
                match summary.record(&pnl, holding, flagged) {
                    Some(updated) => {
                        let bucket = choose_bucket(&pnl, holding);
                        let exact = summary.bucket_total(bucket).adds_exactly_to(
                            &pnl.abs(),
                            &updated.bucket_total(bucket),
                        );
                        reconciled = reconciled && exact;
                        summary = updated;
                    },
                    None => {
                        proof {
                            lemma_overflow_stays(trades@, *period, i + 1);
                        }
                        return None;
                    },
                }
                match wash_sale_if(trade, &pnl, flagged) {
                    Some(wash_sale) => {
                        found_wash_sales.push(wash_sale);
                    },
                    None => {},
                }
                let quantity = match trade.quantity {
                    Some(quantity) => quantity,
                    None => Amount::zero(),
                };
                let ghost before = activity;
                activity.register(
                    &trade.symbol,
                    ActivityEntry { trade_date: trade.trade_date, realized_pnl: pnl, quantity },
                );
                proof {
                    assert forall|symbol: Seq<char>| #[trigger]
                        activity.entries_for(symbol) == activity_of(next, *period, symbol) by {
                        if symbol != trade.symbol@ {
                            assert(activity.entries_for(symbol) == before.entries_for(symbol));
                        }
                    }
                }
            },
            None => {
                proof {
                    assert forall|symbol: Seq<char>| #[trigger]
                        activity.entries_for(symbol) == activity_of(next, *period, symbol) by {}
                }
            },
        }
        i += 1;
    }
    proof {
        assert(trades@.take(i as int) =~= trades@);
        if reconciled {
            lemma_totals_reconcile(trades@, *period);
        }
        lemma_disallowed_is_sum_of_losses(trades@, *period);
        lemma_wash_sales_are_flagged_losses(trades@, *period);
    }
    Some(TradeAnalysis { capital_gains: summary, wash_sales: found_wash_sales, activity, reconciled })
}

/// The sum of the magnitudes of the losses of a list of wash sales, taken in
/// order. `None` where it leaves the range of an amount on the way.
pub open spec fn disallowed_total(records: Seq<WashSale>) -> Option<Amount>
    decreases records.len(),
{
    if records.len() == 0 {
        Some(Amount::of_parts(0, 0))
    } else {
        match disallowed_total(records.drop_last()) {
            Some(total) => total.sum_with(records.last().loss_amount.magnitude()),
            None => None,
        }
    }
}

/// The sum of the realized profits and losses of the trades that count for
/// the period, in units of 10^-28.
pub open spec fn realized_total(trades: Seq<Trade>, period: TaxPeriod) -> int
    decreases trades.len(),
{
    if trades.len() == 0 {
        0
    } else {
        realized_total(trades.drop_last(), period) + if counts_for(trades.last(), period) {
            trades.last().fifo_pnl_realized->0.value()
        } else {
            0
        }
    }
}

/// Whether every addition to one of the four totals, on the way through the
/// trades, was made without rounding.
pub open spec fn totals_exact(trades: Seq<Trade>, period: TaxPeriod) -> bool
    decreases trades.len(),
{
    if trades.len() == 0 {
        true
    } else {
        let trade = trades.last();
        &&& totals_exact(trades.drop_last(), period)
        &&& counts_for(trade, period) ==> (capital_gains(trades.drop_last(), period) matches Some(
            summary,
        ) ==> summary.total(
            bucket_for(trade.fifo_pnl_realized->0, trade_holding_period(trade)),
        ).adds_exactly(trade.fifo_pnl_realized->0.magnitude()))
    }
}

/// A trade that realized no loss adds nothing to the list of wash sales,
/// whatever its notes say.
pub proof fn lemma_no_wash_sale_without_loss(trades: Seq<Trade>, trade: Trade, period: TaxPeriod)
    requires
        trade.fifo_pnl_realized matches Some(pnl) ==> pnl.mantissa() >= 0,
    ensures
        wash_sales(trades.push(trade), period) == wash_sales(trades, period),
{
    assert(trades.push(trade).drop_last() =~= trades);
}

/// Every wash sale in the list stems from a counted trade whose notes mark
/// it and that realized a loss; it carries that loss and its magnitude.
pub proof fn lemma_wash_sales_are_flagged_losses(trades: Seq<Trade>, period: TaxPeriod)
    ensures
        forall|k: int|
            0 <= k < wash_sales(trades, period).len() ==> {
                let record = #[trigger] wash_sales(trades, period)[k];
                &&& record.loss_amount.mantissa() < 0
                &&& record.disallowed_amount == record.loss_amount.magnitude()
                &&& exists|i: int|
                    0 <= i < trades.len() && counts_for(#[trigger] trades[i], period)
                        && is_wash_sale_flagged(trades[i].notes) && record == wash_sale_record(
                        trades[i],
                        trades[i].fifo_pnl_realized->0,
                    )
            },
    decreases trades.len(),
{
    if trades.len() > 0 {
        let earlier = trades.drop_last();
        lemma_wash_sales_are_flagged_losses(earlier, period);
        assert forall|k: int| 0 <= k < wash_sales(trades, period).len() implies {
            let record = #[trigger] wash_sales(trades, period)[k];
            &&& record.loss_amount.mantissa() < 0
            &&& record.disallowed_amount == record.loss_amount.magnitude()
            &&& exists|i: int|
                0 <= i < trades.len() && counts_for(#[trigger] trades[i], period)
                    && is_wash_sale_flagged(trades[i].notes) && record == wash_sale_record(
                    trades[i],
                    trades[i].fifo_pnl_realized->0,
                )
        } by {
            let record = wash_sales(trades, period)[k];
            if k < wash_sales(earlier, period).len() {
                assert(record == wash_sales(earlier, period)[k]);
                let i = choose|i: int|
                    0 <= i < earlier.len() && counts_for(#[trigger] earlier[i], period)
                        && is_wash_sale_flagged(earlier[i].notes) && record == wash_sale_record(
                        earlier[i],
                        earlier[i].fifo_pnl_realized->0,
                    );
                assert(trades[i] == earlier[i]);
            } else {
                let i = trades.len() - 1;
                assert(trades[i] == trades.last());
            }
        }
    }
}

/// The disallowed total of the summary is the sum of the magnitudes of the
/// losses of the recorded wash sales.
pub proof fn lemma_disallowed_is_sum_of_losses(trades: Seq<Trade>, period: TaxPeriod)
    requires
        capital_gains(trades, period) is Some,
    ensures
        disallowed_total(wash_sales(trades, period)) == Some(
            capital_gains(trades, period)->0.wash_sale_disallowed,
        ),
    decreases trades.len(),
{
    if trades.len() > 0 {
        let earlier = trades.drop_last();
        let trade = trades.last();
        lemma_disallowed_is_sum_of_losses(earlier, period);
        if counts_for(trade, period) && is_wash_sale_loss(trade, trade.fifo_pnl_realized->0) {
            let record = wash_sale_record(trade, trade.fifo_pnl_realized->0);
            assert(wash_sales(trades, period).drop_last() =~= wash_sales(earlier, period));
            assert(wash_sales(trades, period).last() == record);
        }
    }
}

/// Where no addition rounded, the four totals reconcile with the trades:
/// short-term gains less losses plus long-term gains less losses is the sum
/// of the realized profits and losses of all counted trades.
pub proof fn lemma_totals_reconcile(trades: Seq<Trade>, period: TaxPeriod)
    requires
        forall|i: int|
            0 <= i < trades.len() && counts_for(#[trigger] trades[i], period)
                ==> trades[i].fifo_pnl_realized->0.is_valid(),
        capital_gains(trades, period) is Some,
        totals_exact(trades, period),
    ensures
        capital_gains(trades, period)->0.net_value() == realized_total(trades, period),
    decreases trades.len(),
{
    if trades.len() == 0 {
        Amount::lemma_of_parts(0, 0);
    } else {
        let earlier = trades.drop_last();
        let trade = trades.last();
        assert forall|i: int|
            0 <= i < earlier.len() && counts_for(#[trigger] earlier[i], period)
                implies earlier[i].fifo_pnl_realized->0.is_valid() by {
            assert(earlier[i] == trades[i]);
        }
        lemma_totals_reconcile(earlier, period);
        if counts_for(trade, period) {
            assert(trade == trades[trades.len() - 1]);
            trade.fifo_pnl_realized->0.lemma_magnitude();
        }
    }
}

} // verus!
