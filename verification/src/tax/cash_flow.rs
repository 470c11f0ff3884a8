//! Dividends, withholding tax and interest among the cash transactions.

use crate::money::Amount;
use crate::tax::period::TaxPeriod;
use crate::text::same_text;
use crate::types::activity::CashTransaction;
use vstd::prelude::*;

verus! {

/// What a cash transaction counts as.
#[derive(Clone, Copy, Debug, PartialEq, Eq, Structural)]
pub enum CashCategory {
    /// A dividend, or a payment in lieu of one.
    Dividend,
    /// Tax withheld at the source.
    Withholding,
    /// Interest received or paid.
    Interest,
    /// Anything else; it is not counted.
    Other,
}

/// Totals of the cash transactions of a tax year. Each is a signed sum:
/// tax withheld and interest paid enter with the sign the broker gives
/// them, as a rule below zero.
#[derive(Clone, Copy, Debug, PartialEq, Eq, Structural)]
pub struct CashFlowTotals {
    /// Dividends and payments in lieu of dividends.
    pub total_dividends: Amount,
    /// Tax withheld.
    pub total_withholding: Amount,
    /// Interest received less interest paid.
    pub total_interest: Amount,
}

/// The category of a transaction type. The type is compared as it stands:
/// case counts, and nothing is trimmed.
pub open spec fn category_of(kind: Seq<char>) -> CashCategory {
    if kind == "Dividends"@ || kind == "Payment In Lieu Of Dividends"@ {
        CashCategory::Dividend
    } else if kind == "Withholding Tax"@ {
        CashCategory::Withholding
    } else if kind == "Broker Interest Received"@ || kind == "Bond Interest Received"@ || kind
        == "Broker Interest Paid"@ {
        CashCategory::Interest
    } else {
        CashCategory::Other
    }
}

/// Whether a cash transaction belongs to the period: one without a date
/// always does, one with a date where the date lies in the period.
pub open spec fn belongs_to(transaction: CashTransaction, period: TaxPeriod) -> bool {
    match transaction.date {
        Some(date) => period.covers(date@),
        None => true,
    }
}

impl CashFlowTotals {
    /// The totals at zero.
    pub open spec fn empty() -> CashFlowTotals {
        CashFlowTotals {
            total_dividends: Amount::of_parts(0, 0),
            total_withholding: Amount::of_parts(0, 0),
            total_interest: Amount::of_parts(0, 0),
        }
    }

    /// The totals after an amount of the given category. `None` where the
    /// sum leaves the range of an amount.
    pub open spec fn added(self, category: CashCategory, amount: Amount) -> Option<
        CashFlowTotals,
    > {
        match category {
            CashCategory::Dividend => match self.total_dividends.sum_with(amount) {
                Some(total) => Some(CashFlowTotals { total_dividends: total, ..self }),
                None => None,
            },
            CashCategory::Withholding => match self.total_withholding.sum_with(amount) {
                Some(total) => Some(CashFlowTotals { total_withholding: total, ..self }),
                None => None,
            },
            CashCategory::Interest => match self.total_interest.sum_with(amount) {
                Some(total) => Some(CashFlowTotals { total_interest: total, ..self }),
                None => None,
            },
            CashCategory::Other => Some(self),
        }
    }

    /// The totals after a transaction of the period.
    pub open spec fn after(self, transaction: CashTransaction) -> Option<CashFlowTotals> {
        self.added(category_of(transaction.transaction_type@), transaction.amount)
    }

    /// Totals at zero.
    pub fn new() -> (r: CashFlowTotals)
        ensures
            r == CashFlowTotals::empty(),
    {
        CashFlowTotals {
            total_dividends: Amount::zero(),
            total_withholding: Amount::zero(),
            total_interest: Amount::zero(),
        }
    }

    /// Adds an amount to the total of its category.
    pub fn add(&self, category: CashCategory, amount: &Amount) -> (r: Option<CashFlowTotals>)
        ensures
            r == self.added(category, *amount),
    {
        let mut next = *self;
        match category {
            CashCategory::Dividend => match self.total_dividends.checked_add(amount) {
                Some(total) => {
                    next.total_dividends = total;
                },
                None => {
                    return None;
                },
            },
            CashCategory::Withholding => match self.total_withholding.checked_add(amount) {
                Some(total) => {
                    next.total_withholding = total;
                },
                None => {
                    return None;
                },
            },
            CashCategory::Interest => match self.total_interest.checked_add(amount) {
                Some(total) => {
                    next.total_interest = total;
                },
                None => {
                    return None;
                },
            },
            CashCategory::Other => {},
        }
        Some(next)
    }

    /// Dividends after tax: the dividends plus the withholding, which is
    /// kept with its sign. `None` where the sum leaves the range of an
    /// amount.
    pub fn net_dividends(&self) -> (r: Option<Amount>)
        ensures
            r == self.total_dividends.sum_with(self.total_withholding),
    {
        self.total_dividends.checked_add(&self.total_withholding)
    }

    /// The tax withheld as a magnitude, for display.
    pub fn withholding_paid(&self) -> (r: Amount)
        ensures
            r == self.total_withholding.magnitude(),
    {
        self.total_withholding.abs()
    }
}

/// Names the category of a transaction type.
pub fn categorize(kind: &str) -> (r: CashCategory)
    ensures
        r == category_of(kind@),
{
    if same_text(kind, "Dividends") || same_text(kind, "Payment In Lieu Of Dividends") {
        CashCategory::Dividend
    } else if same_text(kind, "Withholding Tax") {
        CashCategory::Withholding
    } else if same_text(kind, "Broker Interest Received") || same_text(
        kind,
        "Bond Interest Received",
    ) || same_text(kind, "Broker Interest Paid") {
        CashCategory::Interest
    } else {
        CashCategory::Other
    }
}

/// Whether a cash transaction belongs to the period.
pub fn is_in_period(transaction: &CashTransaction, period: &TaxPeriod) -> (r: bool)
    ensures
        r == belongs_to(*transaction, *period),
{
    match transaction.date {
        Some(date) => period.contains(date),
        None => true,
    }
}

/// The totals of the cash transactions that belong to the period, taken in
/// order. `None` where a total leaves the range of an amount on the way.
pub open spec fn cash_totals(transactions: Seq<CashTransaction>, period: TaxPeriod) -> Option<
    CashFlowTotals,
>
    decreases transactions.len(),
{
    if transactions.len() == 0 {
        Some(CashFlowTotals::empty())
    } else {
        match cash_totals(transactions.drop_last(), period) {
            Some(totals) => if belongs_to(transactions.last(), period) {
                totals.after(transactions.last())
            } else {
                Some(totals)
            },
            None => None,
        }
    }
}

/// Once a total has left the range of an amount, more transactions do not
/// bring the totals back.
pub proof fn lemma_cash_overflow_stays(
    transactions: Seq<CashTransaction>,
    period: TaxPeriod,
    count: int,
)
    requires
        0 <= count <= transactions.len(),
        cash_totals(transactions.take(count), period) is None,
    ensures
        cash_totals(transactions, period) is None,
    decreases transactions.len() - count,
{
    if count == transactions.len() {
        assert(transactions.take(count) =~= transactions);
    } else {
        assert(transactions.drop_last().take(count) =~= transactions.take(count));
        lemma_cash_overflow_stays(transactions.drop_last(), period, count);
    }
}

/// Sums the dividends, the withholding tax and the interest of a period.
pub fn categorize_cash_flows(transactions: &Vec<CashTransaction>, period: &TaxPeriod) -> (r:
    Option<CashFlowTotals>)
    ensures
        r == cash_totals(transactions@, *period),
{
    let mut totals = CashFlowTotals::new();
    let mut i: usize = 0;
    assert(transactions@.take(0) =~= Seq::<CashTransaction>::empty());
    while i < transactions.len()
        invariant
            i <= transactions@.len(),
            cash_totals(transactions@.take(i as int), *period) == Some(totals),
        decreases transactions@.len() - i,
    {
        let transaction = &transactions[i];
        proof {
            assert(transactions@.take(i + 1).drop_last() =~= transactions@.take(i as int));
            assert(transactions@.take(i + 1).last() == *transaction);
        }
        if is_in_period(transaction, period) {
            let category = categorize(transaction.transaction_type.as_str());
            match totals.add(category, &transaction.amount) {
                Some(next) => {
                    totals = next;
                },
                None => {
                    proof {
                        lemma_cash_overflow_stays(transactions@, *period, i + 1);
                    }
                    return None;
                },
            }
        }
        i += 1;
    }
    assert(transactions@.take(i as int) =~= transactions@);
    Some(totals)
}

/// A cash transaction without a date is counted in every period.
pub proof fn lemma_undated_cash_is_counted(
    transactions: Seq<CashTransaction>,
    transaction: CashTransaction,
    period: TaxPeriod,
)
    requires
        transaction.date is None,
    ensures
        belongs_to(transaction, period),
        cash_totals(transactions.push(transaction), period) == match cash_totals(
            transactions,
            period,
        ) {
            Some(totals) => totals.after(transaction),
            None => None,
        },
{
    assert(transactions.push(transaction).drop_last() =~= transactions);
}

/// A cash transaction dated outside the period changes no total.
pub proof fn lemma_cash_outside_period_is_excluded(
    transactions: Seq<CashTransaction>,
    transaction: CashTransaction,
    period: TaxPeriod,
)
    requires
        transaction.date matches Some(date) && !period.covers(date@),
    ensures
        !belongs_to(transaction, period),
        cash_totals(transactions.push(transaction), period) == cash_totals(transactions, period),
{
    assert(transactions.push(transaction).drop_last() =~= transactions);
}

} // verus!
