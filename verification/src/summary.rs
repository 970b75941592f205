//! The tallies behind the summary: how often each system call was made and,
//! where calls are timed, how long they took in all.

use crate::rank::{lists, Weighted};
use std::collections::HashMap;
use vstd::prelude::*;
use vstd::std_specs::iter::IteratorSpec;

verus! {

broadcast use vstd::std_specs::hash::group_hash_axioms;

/// What a timed table knows of one system call: how many calls were
/// recorded, and their elapsed nanoseconds summed up, the sum stopping at
/// `u64::MAX`.
pub struct Tally {
    pub count: nat,
    pub nanos: nat,
}

/// `a + b`, but no more than `u64::MAX`.
pub open spec fn saturating_sum(a: nat, b: nat) -> nat {
    if a + b > u64::MAX {
        u64::MAX as nat
    } else {
        a + b
    }
}

/// The tally of `sysno` in `table`, which is zero calls and no time where
/// the table has no entry for it.
pub open spec fn tally_of(table: Map<u64, Tally>, sysno: u64) -> Tally {
    if table.contains_key(sysno) {
        table[sysno]
    } else {
        Tally { count: 0, nanos: 0 }
    }
}

/// The timed table after one more call of `sysno` that took `elapsed`
/// nanoseconds: that call's entry counts one more and has `elapsed` added,
/// and no other entry changes.
pub open spec fn recorded(table: Map<u64, Tally>, sysno: u64, elapsed: nat) -> Map<u64, Tally> {
    table.insert(
        sysno,
        Tally {
            count: tally_of(table, sysno).count + 1,
            nanos: saturating_sum(tally_of(table, sysno).nanos, elapsed),
        },
    )
}

/// The count of `sysno` in an untimed table, 0 where it has no entry.
pub open spec fn count_of(table: Map<u64, nat>, sysno: u64) -> nat {
    if table.contains_key(sysno) {
        table[sysno]
    } else {
        0
    }
}

/// The untimed table after one more call of `sysno`.
pub open spec fn counted(table: Map<u64, nat>, sysno: u64) -> Map<u64, nat> {
    table.insert(sysno, count_of(table, sysno) + 1)
}

/// The timed table that a run of recorded calls leaves behind, each call
/// given as its number and its elapsed nanoseconds.
pub open spec fn recorded_all(records: Seq<(u64, nat)>) -> Map<u64, Tally>
    decreases records.len(),
{
    if records.len() == 0 {
        Map::empty()
    } else {
        recorded(recorded_all(records.drop_last()), records.last().0, records.last().1)
    }
}

/// How many of `records` are calls of `sysno`.
pub open spec fn calls_of(records: Seq<(u64, nat)>, sysno: u64) -> nat
    decreases records.len(),
{
    if records.len() == 0 {
        0
    } else if records.last().0 == sysno {
        calls_of(records.drop_last(), sysno) + 1
    } else {
        calls_of(records.drop_last(), sysno)
    }
}

/// The elapsed nanoseconds of the calls of `sysno` among `records`, summed.
pub open spec fn time_of(records: Seq<(u64, nat)>, sysno: u64) -> nat
    decreases records.len(),
{
    if records.len() == 0 {
        0
    } else if records.last().0 == sysno {
        time_of(records.drop_last(), sysno) + records.last().1
    } else {
        time_of(records.drop_last(), sysno)
    }
}

/// After any run of recorded calls, in whatever order the system calls
/// came, the table has an entry for a system call exactly if it was
/// recorded at least once; the entry's count is the number of its records,
/// and its time is the sum of their elapsed times, or `u64::MAX` where the
/// sum is larger.
pub proof fn lemma_timed_table_tallies(records: Seq<(u64, nat)>, sysno: u64)
    ensures
        recorded_all(records).contains_key(sysno) <==> calls_of(records, sysno) > 0,
        tally_of(recorded_all(records), sysno).count == calls_of(records, sysno),
        tally_of(recorded_all(records), sysno).nanos == saturating_sum(time_of(records, sysno), 0),
        time_of(records, sysno) <= u64::MAX ==> tally_of(recorded_all(records), sysno).nanos
            == time_of(records, sysno),
    decreases records.len(),
{
    if records.len() > 0 {
        lemma_timed_table_tallies(records.drop_last(), sysno);
    }
}

/// The untimed table that a run of calls leaves behind.
pub open spec fn counted_all(calls: Seq<u64>) -> Map<u64, nat>
    decreases calls.len(),
{
    if calls.len() == 0 {
        Map::empty()
    } else {
        counted(counted_all(calls.drop_last()), calls.last())
    }
}

/// How many of `calls` are calls of `sysno`.
pub open spec fn occurrences(calls: Seq<u64>, sysno: u64) -> nat
    decreases calls.len(),
{
    if calls.len() == 0 {
        0
    } else if calls.last() == sysno {
        occurrences(calls.drop_last(), sysno) + 1
    } else {
        occurrences(calls.drop_last(), sysno)
    }
}

/// After any run of calls, the untimed table has an entry for a system call
/// exactly if it was called at least once, and the entry is the number of
/// its calls.
pub proof fn lemma_count_table_tallies(calls: Seq<u64>, sysno: u64)
    ensures
        counted_all(calls).contains_key(sysno) <==> occurrences(calls, sysno) > 0,
        count_of(counted_all(calls), sysno) == occurrences(calls, sysno),
    decreases calls.len(),
{
    if calls.len() > 0 {
        lemma_count_table_tallies(calls.drop_last(), sysno);
    }
}

/// The weight of a system call in the summary of a timed table: the time
/// its calls took.
pub open spec fn timed_weight(table: Map<u64, Tally>) -> spec_fn(u64) -> nat {
    |sysno: u64| table[sysno].nanos
}

/// The weight of a system call in the summary of an untimed table: the
/// number of its calls.
pub open spec fn count_weight(table: Map<u64, nat>) -> spec_fn(u64) -> nat {
    |sysno: u64| table[sysno]
}

/// One entry of a timed table as it is stored.
#[derive(Clone, Copy, Debug, PartialEq, Eq)]
pub struct TimedEntry {
    pub count: usize,
    pub nanos: u64,
}

impl TimedEntry {
    /// The entry as a tally.
    pub open spec fn tally(self) -> Tally {
        Tally { count: self.count as nat, nanos: self.nanos as nat }
    }
}

/// Calls and elapsed time by system call, for a session that traces one
/// process.
pub struct TimedTable {
    entries: HashMap<u64, TimedEntry>,
}

impl View for TimedTable {
    type V = Map<u64, Tally>;

    closed spec fn view(&self) -> Map<u64, Tally> {
        self.entries@.map_values(|entry: TimedEntry| entry.tally())
    }
}

impl TimedTable {
    /// A table without entries.
    pub fn new() -> (table: TimedTable)
        ensures
            table@ == Map::<u64, Tally>::empty(),
    {
        let table = TimedTable { entries: HashMap::new() };
        assert(table@ =~= Map::<u64, Tally>::empty());
        table
    }

    /// Whether one more call of `sysno` can be counted.
    pub open spec fn has_room(&self, sysno: u64) -> bool {
        tally_of(self@, sysno).count < usize::MAX
    }

    /// Records one call of `sysno` that took `elapsed` nanoseconds.
    pub fn record(&mut self, sysno: u64, elapsed: u64)
        requires
            old(self).has_room(sysno),
        ensures
            final(self)@ == recorded(old(self)@, sysno, elapsed as nat),
    {
        let entry: TimedEntry = match self.entries.get(&sysno) {
            Some(found) => TimedEntry {
                count: found.count + 1,
                nanos: found.nanos.saturating_add(elapsed),
            },
            None => TimedEntry { count: 1, nanos: elapsed },
        };
        self.entries.insert(sysno, entry);
        assert(self@ =~= recorded(old(self)@, sysno, elapsed as nat));
    }

    /// The system calls of the table, each with the time its calls took,
    /// in the order in which the table happens to hold them.
    pub fn weighted(&self) -> (calls: Vec<Weighted>)
        ensures
            lists(self@.dom(), timed_weight(self@), calls@),
    {
        let mut calls: Vec<Weighted> = Vec::new();
        let ghost held = self.entries.iter().remaining();
        for pair in walk: self.entries.iter()
            invariant
                walk.seq() == held,
                calls@.len() == walk.index(),
                forall|j: int|
                    0 <= j < calls.len() ==> (#[trigger] calls[j]).sysno == *held[j].0
                        && calls[j].weight == held[j].1.nanos,
        {
            calls.push(Weighted { sysno: *pair.0, weight: pair.1.nanos });
        }
        proof {
            let table = self@;
            assert(calls@.len() == held.len());
            assert(held.no_duplicates());
            assert forall|call: u64| #[trigger] table.dom().contains(call) implies exists|i: int|
                0 <= i < calls@.len() && #[trigger] calls@[i].sysno == call by {
                assert(self.entries@.contains_key(call));
                assert(held.contains((&call, &self.entries@[call])));
                let i = choose|i: int| 0 <= i < held.len() && held[i] == (&call, &self.entries@[call]);
                assert(calls@[i].sysno == call);
            }
            assert forall|i: int, j: int| 0 <= i < j < calls@.len() implies (#[trigger] calls@[i]).sysno
                != (#[trigger] calls@[j]).sysno by {
                assert(self.entries@.contains_key(*held[i].0));
                assert(self.entries@.contains_key(*held[j].0));
                if calls@[i].sysno == calls@[j].sysno {
                    assert(held[i] == held[j]);
                }
            }
            assert forall|i: int| 0 <= i < calls@.len() implies table.dom().contains(
                (#[trigger] calls@[i]).sysno,
            ) && calls@[i].weight == timed_weight(table)(calls@[i].sysno) by {
                assert(self.entries@.contains_key(*held[i].0));
            }
        }
        calls
    }

    /// The tally of `sysno`, if any call of it was recorded.
    pub fn get(&self, sysno: u64) -> (entry: Option<TimedEntry>)
        ensures
            entry is Some <==> self@.contains_key(sysno),
            entry is Some ==> entry->0.tally() == self@[sysno],
    {
        match self.entries.get(&sysno) {
            Some(found) => Some(*found),
            None => None,
        }
    }
}

/// Calls by system call, for a session that follows forks.
pub struct CountTable {
    entries: HashMap<u64, usize>,
}

impl View for CountTable {
    type V = Map<u64, nat>;

    closed spec fn view(&self) -> Map<u64, nat> {
        self.entries@.map_values(|count: usize| count as nat)
    }
}

impl CountTable {
    /// A table without entries.
    pub fn new() -> (table: CountTable)
        ensures
            table@ == Map::<u64, nat>::empty(),
    {
        let table = CountTable { entries: HashMap::new() };
        assert(table@ =~= Map::<u64, nat>::empty());
        table
    }

    /// Whether one more call of `sysno` can be counted.
    pub open spec fn has_room(&self, sysno: u64) -> bool {
        count_of(self@, sysno) < usize::MAX
    }

    /// Records one call of `sysno`.
    pub fn record(&mut self, sysno: u64)
        requires
            old(self).has_room(sysno),
        ensures
            final(self)@ == counted(old(self)@, sysno),
    {
        let count: usize = match self.entries.get(&sysno) {
            Some(found) => *found + 1,
            None => 1,
        };
        self.entries.insert(sysno, count);
        assert(self@ =~= counted(old(self)@, sysno));
    }

    /// The system calls of the table, each with the number of its calls,
    /// in the order in which the table happens to hold them.
    pub fn weighted(&self) -> (calls: Vec<Weighted>)
        ensures
            lists(self@.dom(), count_weight(self@), calls@),
    {
        let mut calls: Vec<Weighted> = Vec::new();
        let ghost held = self.entries.iter().remaining();
        for pair in walk: self.entries.iter()
            invariant
                walk.seq() == held,
                calls@.len() == walk.index(),
                forall|j: int|
                    0 <= j < calls.len() ==> (#[trigger] calls[j]).sysno == *held[j].0
                        && calls[j].weight == *held[j].1,
        {
            calls.push(Weighted { sysno: *pair.0, weight: *pair.1 as u64 });
        }
        proof {
            let table = self@;
            assert(calls@.len() == held.len());
            assert(held.no_duplicates());
            assert forall|call: u64| #[trigger] table.dom().contains(call) implies exists|i: int|
                0 <= i < calls@.len() && #[trigger] calls@[i].sysno == call by {
                assert(self.entries@.contains_key(call));
                assert(held.contains((&call, &self.entries@[call])));
                let i = choose|i: int| 0 <= i < held.len() && held[i] == (&call, &self.entries@[call]);
                assert(calls@[i].sysno == call);
            }
            assert forall|i: int, j: int| 0 <= i < j < calls@.len() implies (#[trigger] calls@[i]).sysno
                != (#[trigger] calls@[j]).sysno by {
                assert(self.entries@.contains_key(*held[i].0));
                assert(self.entries@.contains_key(*held[j].0));
                if calls@[i].sysno == calls@[j].sysno {
                    assert(held[i] == held[j]);
                }
            }
            assert forall|i: int| 0 <= i < calls@.len() implies table.dom().contains(
                (#[trigger] calls@[i]).sysno,
            ) && calls@[i].weight == count_weight(table)(calls@[i].sysno) by {
                assert(self.entries@.contains_key(*held[i].0));
            }
        }
        calls
    }

    /// The count of `sysno`, if any call of it was recorded.
    pub fn get(&self, sysno: u64) -> (count: Option<usize>)
        ensures
            count is Some <==> self@.contains_key(sysno),
            count is Some ==> count->0 == self@[sysno],
    {
        match self.entries.get(&sysno) {
            Some(found) => Some(*found),
            None => None,
        }
    }
}

} // verus!
