//! Open positions whose cost basis a wash sale still restricts.

use crate::date::{day_distance, leading_date, Date};
use crate::money::Amount;
use crate::tax::activity_index::{ActivityEntry, SymbolActivityIndex};
use crate::types::activity::Position;
use vstd::prelude::*;

verus! {

/// Days before and after a loss sale in which a purchase of the same
/// security falls under the wash-sale rule; also the days for which the
/// restriction lasts after the sale.
pub const WASH_SALE_WINDOW_DAYS: i32 = 30;

/// An open position under a wash-sale restriction, for one loss sale.
#[derive(Debug)]
pub struct RestrictedPosition {
    /// Ticker symbol of the position.
    pub symbol: String,
    /// Contract identifier of the position.
    pub conid: String,
    /// Quantity of the position, as the statement gives it.
    pub quantity: Amount,
    /// Day on which the position was acquired.
    pub acquisition_date: Date,
    /// Amount by which the cost basis rises: the magnitude of the loss.
    pub cost_basis_adjustment: Amount,
    /// Day on which the restriction ends: 30 days after the loss sale.
    pub restriction_ends: Date,
}

/// The day that an optional timestamp starts with.
pub open spec fn leading_day(text: Option<String>) -> Option<int> {
    match text {
        Some(t) => leading_date(t@),
        None => None,
    }
}

/// The day on which a position was acquired: the day that its open
/// timestamp starts with or, where that is absent or spells no date, the
/// day that its holding-period timestamp starts with.
pub open spec fn acquisition_day(position: Position) -> Option<int> {
    match leading_day(position.open_date_time) {
        Some(day) => Some(day),
        None => leading_day(position.holding_period_date_time),
    }
}

/// Whether a trade of the position's symbol restricts a position acquired
/// on day `acquired`, as of day `as_of`: the trade realized a loss, at most
/// 30 days lie between it and the acquisition, whichever came first, and
/// the 30 days after the sale have not passed.
pub open spec fn is_restricting(acquired: int, entry: ActivityEntry, as_of: int) -> bool {
    &&& entry.realized_pnl.mantissa() < 0
    &&& day_distance(acquired, entry.trade_date@) <= WASH_SALE_WINDOW_DAYS
    &&& entry.trade_date@ + WASH_SALE_WINDOW_DAYS >= as_of
}

/// The record of a position that a loss sale restricts.
pub open spec fn restriction_record(position: Position, acquired: Date, entry: ActivityEntry)
    -> RestrictedPosition {
    RestrictedPosition {
        symbol: position.symbol,
        conid: position.conid,
        quantity: position.quantity,
        acquisition_date: acquired,
        cost_basis_adjustment: entry.realized_pnl.magnitude(),
        restriction_ends: Date { days: (entry.trade_date@ + WASH_SALE_WINDOW_DAYS) as i32 },
    }
}

/// The records of one position: one for each entry that restricts it, in
/// the order of the entries.
pub open spec fn restrictions_from(
    position: Position,
    acquired: Date,
    entries: Seq<ActivityEntry>,
    as_of: int,
) -> Seq<RestrictedPosition>
    decreases entries.len(),
{
    if entries.len() == 0 {
        Seq::empty()
    } else {
        let earlier = restrictions_from(position, acquired, entries.drop_last(), as_of);
        if is_restricting(acquired@, entries.last(), as_of) {
            earlier.push(restriction_record(position, acquired, entries.last()))
        } else {
            earlier
        }
    }
}

/// The records of one position against the trades of its symbol. A
/// position without an acquisition day has none.
pub open spec fn restrictions_of(
    position: Position,
    activity: spec_fn(Seq<char>) -> Seq<ActivityEntry>,
    as_of: int,
) -> Seq<RestrictedPosition> {
    match acquisition_day(position) {
        Some(day) => restrictions_from(
            position,
            Date { days: day as i32 },
            activity(position.symbol@),
            as_of,
        ),
        None => Seq::empty(),
    }
}

/// The records of all positions, position by position.
pub open spec fn restricted_positions(
    positions: Seq<Position>,
    activity: spec_fn(Seq<char>) -> Seq<ActivityEntry>,
    as_of: int,
) -> Seq<RestrictedPosition>
    decreases positions.len(),
{
    if positions.len() == 0 {
        Seq::empty()
    } else {
        restricted_positions(positions.drop_last(), activity, as_of) + restrictions_of(
            positions.last(),
            activity,
            as_of,
        )
    }
}

/// Whether the restriction that a trade on `trade_date` opens can be dated:
/// its last day has a day number.
pub open spec fn window_fits(trade_date: Date) -> bool {
    trade_date@ + WASH_SALE_WINDOW_DAYS <= i32::MAX
}

/// The date that a timestamp starts with, where there is a timestamp and it
/// starts with one.
pub fn parse_timestamp(text: &Option<String>) -> (r: Option<Date>)
    ensures
        r matches Some(d) ==> leading_day(*text) == Some(d@),
        r is None <==> leading_day(*text) is None,
{
    match text {
        Some(t) => Date::parse_leading(t.as_str()),
        None => None,
    }
}

/// The day on which a position was acquired, if the statement tells it.
pub fn acquisition_date(position: &Position) -> (r: Option<Date>)
    ensures
        r matches Some(d) ==> acquisition_day(*position) == Some(d@),
        r is None <==> acquisition_day(*position) is None,
{
    match parse_timestamp(&position.open_date_time) {
        Some(date) => Some(date),
        None => parse_timestamp(&position.holding_period_date_time),
    }
}

/// Assesses one position against one trade of its symbol.
pub fn assess(position: &Position, acquired: Date, entry: &ActivityEntry, as_of: Date) -> (r:
    Option<RestrictedPosition>)
    requires
        window_fits(entry.trade_date),
    ensures
        is_restricting(acquired@, *entry, as_of@) ==> r == Some(
            restriction_record(*position, acquired, *entry),
        ),
        !is_restricting(acquired@, *entry, as_of@) ==> r is None,
{
    if !entry.realized_pnl.is_negative() {
        return None;
    }
    if acquired.days_apart(entry.trade_date) > WASH_SALE_WINDOW_DAYS as i64 {
        return None;
    }
    let restriction_ends = Date::from_days(entry.trade_date.days + WASH_SALE_WINDOW_DAYS);
    if restriction_ends.days < as_of.days {
        return None;
    }
    Some(
        RestrictedPosition {
            symbol: position.symbol.clone(),
            conid: position.conid.clone(),
            quantity: position.quantity,
            acquisition_date: acquired,
            cost_basis_adjustment: entry.realized_pnl.abs(),
            restriction_ends,
        },
    )
}

/// Finds the positions that a loss sale still restricts as of `as_of`. A
/// position has one record for each loss sale that restricts it.
pub fn find_restricted_positions(
    positions: &Vec<Position>,
    activity: &SymbolActivityIndex,
    as_of: Date,
) -> (r: Vec<RestrictedPosition>)
    requires
        activity.wf(),
        forall|symbol: Seq<char>, k: int|
            0 <= k < activity.entries_for(symbol).len() ==> window_fits(
                #[trigger] activity.entries_for(symbol)[k].trade_date,
            ),
    ensures
        r@ == restricted_positions(
            positions@,
            |symbol: Seq<char>| activity.entries_for(symbol),
            as_of@,
        ),
{
    let ghost lookup = |symbol: Seq<char>| activity.entries_for(symbol);
    let mut found: Vec<RestrictedPosition> = Vec::new();
    let mut i: usize = 0;
    assert(positions@.take(0) =~= Seq::<Position>::empty());
    while i < positions.len()
        invariant
            i <= positions@.len(),
            activity.wf(),
            lookup == (|symbol: Seq<char>| activity.entries_for(symbol)),
            forall|symbol: Seq<char>, k: int|
                0 <= k < activity.entries_for(symbol).len() ==> window_fits(
                    #[trigger] activity.entries_for(symbol)[k].trade_date,
                ),
            found@ == restricted_positions(positions@.take(i as int), lookup, as_of@),
        decreases positions@.len() - i,
    {
        let position = &positions[i];
        let ghost done = found@;
        proof {
            assert(positions@.take(i + 1).drop_last() =~= positions@.take(i as int));
            assert(positions@.take(i + 1).last() == *position);
        }
        match acquisition_date(position) {
            Some(acquired) => {
                assert(acquired == Date { days: acquired@ as i32 });
                match activity.get(&position.symbol) {
                    Some(entries) => {
                        assert(entries@ == lookup(position.symbol@));
                        let mut j: usize = 0;
                        assert(entries@.take(0) =~= Seq::<ActivityEntry>::empty());
                        while j < entries.len()
                            invariant
                                j <= entries@.len(),
                                entries@ == activity.entries_for(position.symbol@),
                                forall|symbol: Seq<char>, k: int|
                                    0 <= k < activity.entries_for(symbol).len() ==> window_fits(
                                        #[trigger] activity.entries_for(symbol)[k].trade_date,
                                    ),
                                found@ == done + restrictions_from(
                                    *position,
                                    acquired,
                                    entries@.take(j as int),
                                    as_of@,
                                ),
                            decreases entries@.len() - j,
                        {
                            let entry = &entries[j];
                            proof {
                                assert(entries@.take(j + 1).drop_last() =~= entries@.take(
                                    j as int,
                                ));
                                assert(entries@.take(j + 1).last() == *entry);
                                assert(*entry == activity.entries_for(position.symbol@)[j as int]);
                            }
                            match assess(position, acquired, entry, as_of) {
                                Some(record) => {
                                    found.push(record);
                                    assert(found@ =~= done + restrictions_from(
                                        *position,
                                        acquired,
                                        entries@.take(j + 1),
                                        as_of@,
                                    ));
                                },
                                None => {},
                            }
                            j += 1;
                        }
                        assert(entries@.take(j as int) =~= entries@);
                    },
                    None => {
                        assert(lookup(position.symbol@) == Seq::<ActivityEntry>::empty());
                        assert(found@ =~= done + Seq::<RestrictedPosition>::empty());
                    },
                }
            },
            None => {
                assert(found@ =~= done + Seq::<RestrictedPosition>::empty());
            },
        }
        i += 1;
    }
    assert(positions@.take(i as int) =~= positions@);
    found
}

/// A loss sale exactly 31 days from the acquisition adds no record.
pub proof fn lemma_thirty_one_days_apart(
    position: Position,
    acquired: Date,
    entries: Seq<ActivityEntry>,
    entry: ActivityEntry,
    as_of: int,
)
    requires
        day_distance(acquired@, entry.trade_date@) == 31,
    ensures
        restrictions_from(position, acquired, entries.push(entry), as_of) == restrictions_from(
            position,
            acquired,
            entries,
            as_of,
        ),
{
    assert(entries.push(entry).drop_last() =~= entries);
}

/// A loss sale exactly 30 days from the acquisition, whose restriction has
/// not lapsed, adds its record.
pub proof fn lemma_thirty_days_apart(
    position: Position,
    acquired: Date,
    entries: Seq<ActivityEntry>,
    entry: ActivityEntry,
    as_of: int,
)
    requires
        day_distance(acquired@, entry.trade_date@) == 30,
        entry.realized_pnl.mantissa() < 0,
        entry.trade_date@ + 30 >= as_of,
    ensures
        restrictions_from(position, acquired, entries.push(entry), as_of) == restrictions_from(
            position,
            acquired,
            entries,
            as_of,
        ).push(restriction_record(position, acquired, entry)),
{
    assert(entries.push(entry).drop_last() =~= entries);
}

/// A loss sale whose restriction ended before the as-of day adds no record.
pub proof fn lemma_lapsed_restriction_excluded(
    position: Position,
    acquired: Date,
    entries: Seq<ActivityEntry>,
    entry: ActivityEntry,
    as_of: int,
)
    requires
        entry.trade_date@ + 30 < as_of,
    ensures
        restrictions_from(position, acquired, entries.push(entry), as_of) == restrictions_from(
            position,
            acquired,
            entries,
            as_of,
        ),
{
    assert(entries.push(entry).drop_last() =~= entries);
}

} // verus!
