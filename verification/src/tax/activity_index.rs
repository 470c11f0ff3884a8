//! Per-symbol record of the trades that count for a tax year.

use crate::date::Date;
use crate::money::Amount;
use vstd::prelude::*;

verus! {

/// One counted trade as the index keeps it.
#[derive(Clone, Copy, Debug, PartialEq, Eq, Structural)]
pub struct ActivityEntry {
    /// Day of the trade.
    pub trade_date: Date,
    /// Realized profit or loss of the trade.
    pub realized_pnl: Amount,
    /// Quantity traded; zero where the trade gives none.
    pub quantity: Amount,
}

/// The counted trades of one symbol, in the order in which they came.
#[derive(Debug)]
pub struct SymbolActivity {
    symbol: String,
    entries: Vec<ActivityEntry>,
}

/// Counted trades by symbol. No symbol has more than one group.
#[derive(Debug)]
pub struct SymbolActivityIndex {
    groups: Vec<SymbolActivity>,
}

impl SymbolActivityIndex {
    /// No two groups share a symbol.
    pub closed spec fn wf(&self) -> bool {
        forall|i: int, j: int|
            0 <= i < j < self.groups@.len() ==> self.groups@[i].symbol@ != self.groups@[j].symbol@
    }

    /// Whether group `i` is the group of `symbol`.
    spec fn holds_at(&self, symbol: Seq<char>, i: int) -> bool {
        0 <= i < self.groups@.len() && self.groups@[i].symbol@ == symbol
    }

    /// The entries registered under `symbol`, in the order of their
    /// registration; none for a symbol that the index has not seen.
    pub closed spec fn entries_for(&self, symbol: Seq<char>) -> Seq<ActivityEntry> {
        if exists|i: int| self.holds_at(symbol, i) {
            self.groups@[choose|i: int| self.holds_at(symbol, i)].entries@
        } else {
            Seq::empty()
        }
    }

    /// An index without entries.
    pub fn new() -> (r: SymbolActivityIndex)
        ensures
            r.wf(),
            forall|symbol: Seq<char>| #[trigger] r.entries_for(symbol) == Seq::<ActivityEntry>::empty(),
    {
        SymbolActivityIndex { groups: Vec::new() }
    }

    /// Position of the group of `symbol`, if there is one.
    fn find(&self, symbol: &String) -> (r: Option<usize>)
        ensures
            r matches Some(i) ==> self.holds_at(symbol@, i as int),
            r is None ==> forall|i: int| !self.holds_at(symbol@, i),
    {
        let len = self.groups.len();
        let mut i: usize = 0;
        while i < len
            invariant
                len == self.groups@.len(),
                i <= len,
                forall|k: int| 0 <= k < i ==> !self.holds_at(symbol@, k),
            decreases len - i,
        {
            if self.groups[i].symbol == *symbol {
                return Some(i);
            }
            i += 1;
        }
        None
    }

    /// Under `wf`, a symbol has its group at one position only.
    proof fn lemma_one_group(&self, symbol: Seq<char>, i: int, j: int)
        requires
            self.wf(),
            self.holds_at(symbol, i),
            self.holds_at(symbol, j),
        ensures
            i == j,
    {
        if i < j {
            assert(self.groups@[i].symbol@ != self.groups@[j].symbol@);
        } else if j < i {
            assert(self.groups@[j].symbol@ != self.groups@[i].symbol@);
        }
    }

    /// Under `wf`, the entries of a symbol are those of the group that holds it.
    proof fn lemma_entries_at(&self, symbol: Seq<char>, i: int)
        requires
            self.wf(),
            self.holds_at(symbol, i),
        ensures
            self.entries_for(symbol) == self.groups@[i].entries@,
    {
        let k = choose|k: int| self.holds_at(symbol, k);
        self.lemma_one_group(symbol, i, k);
    }

    /// The entries registered under `symbol`, or `None` where there are none.
    pub fn get(&self, symbol: &String) -> (r: Option<&Vec<ActivityEntry>>)
        requires
            self.wf(),
        ensures
            r matches Some(entries) ==> entries@ == self.entries_for(symbol@),
            r is None ==> self.entries_for(symbol@) == Seq::<ActivityEntry>::empty(),
    {
        match self.find(symbol) {
            Some(i) => {
                proof {
                    self.lemma_entries_at(symbol@, i as int);
                }
                Some(&self.groups[i].entries)
            },
            None => None,
        }
    }

    /// Adds an entry under `symbol`, behind the entries already there.
    pub fn register(&mut self, symbol: &String, entry: ActivityEntry)
        requires
            old(self).wf(),
        ensures
            final(self).wf(),
            final(self).entries_for(symbol@) == old(self).entries_for(symbol@).push(entry),
            forall|other: Seq<char>|
                other != symbol@ ==> #[trigger] final(self).entries_for(other) == old(
                    self,
                ).entries_for(other),
    {
        let ghost before = *self;
        match self.find(symbol) {
            Some(i) => {
                self.groups[i].entries.push(entry);
                proof {
                    let after = *self;
                    assert(after.groups@.len() == before.groups@.len());
                    assert forall|k: int| 0 <= k < after.groups@.len() implies #[trigger] after.groups@[k].symbol
                        == before.groups@[k].symbol by {}
                    assert(after.wf()) by {
                        assert forall|a: int, b: int| 0 <= a < b < after.groups@.len() implies after.groups@[a].symbol@
                            != after.groups@[b].symbol@ by {
                            assert(before.groups@[a].symbol@ != before.groups@[b].symbol@);
                        }
                    }
                    assert(after.holds_at(symbol@, i as int));
                    before.lemma_entries_at(symbol@, i as int);
                    after.lemma_entries_at(symbol@, i as int);
                    assert forall|other: Seq<char>| other != symbol@ implies #[trigger] after.entries_for(
                        other,
                    ) == before.entries_for(other) by {
                        if exists|k: int| before.holds_at(other, k) {
                            let k = choose|k: int| before.holds_at(other, k);
                            assert(after.holds_at(other, k));
                            before.lemma_entries_at(other, k);
                            after.lemma_entries_at(other, k);
                        } else {
                            assert forall|k: int| !after.holds_at(other, k) by {
                                if after.holds_at(other, k) {
                                    assert(before.holds_at(other, k));
                                }
                            }
                        }
                    }
                }
            },
            None => {
                let mut entries: Vec<ActivityEntry> = Vec::new();
                entries.push(entry);
                self.groups.push(SymbolActivity { symbol: symbol.clone(), entries });
                proof {
                    let after = *self;
                    let last = before.groups@.len() as int;
                    assert(after.groups@.len() == last + 1);
                    assert forall|k: int| 0 <= k < last implies #[trigger] after.groups@[k]
                        == before.groups@[k] by {}
                    assert(after.wf()) by {
                        assert forall|a: int, b: int| 0 <= a < b < after.groups@.len() implies after.groups@[a].symbol@
                            != after.groups@[b].symbol@ by {
                            if b < last {
                                assert(before.groups@[a].symbol@ != before.groups@[b].symbol@);
                            } else {
                                assert(!before.holds_at(symbol@, a));
                            }
                        }
                    }
                    assert(after.holds_at(symbol@, last));
                    after.lemma_entries_at(symbol@, last);
                    assert(after.groups@[last].entries@ =~= Seq::<ActivityEntry>::empty().push(entry));
                    assert forall|other: Seq<char>| other != symbol@ implies #[trigger] after.entries_for(
                        other,
                    ) == before.entries_for(other) by {
                        if exists|k: int| before.holds_at(other, k) {
                            let k = choose|k: int| before.holds_at(other, k);
                            assert(after.holds_at(other, k));
                            before.lemma_entries_at(other, k);
                            after.lemma_entries_at(other, k);
                        } else {
                            assert forall|k: int| !after.holds_at(other, k) by {
                                if after.holds_at(other, k) {
                                    assert(k < last);
                                    assert(before.holds_at(other, k));
                                }
                            }
                        }
                    }
                }
            },
        }
    }
}

} // verus!
