//! The order of the rows of a summary: the heaviest system call first, and
//! of two that weigh the same the one with the smaller number.

use vstd::prelude::*;
use vstd::relations::{sorted_by, total_ordering};
use vstd::seq_lib::lemma_sorted_unique;

verus! {

/// The order of system calls by weight: `a` comes before `b`, or is `b`.
pub open spec fn ranks_before(weight: spec_fn(u64) -> nat) -> spec_fn(u64, u64) -> bool {
    |a: u64, b: u64| weight(a) > weight(b) || (weight(a) == weight(b) && a <= b)
}

/// Whether `order` lists each of `calls` once, and no other, in the order
/// of their weights.
pub open spec fn is_ranking(calls: Set<u64>, weight: spec_fn(u64) -> nat, order: Seq<u64>) -> bool {
    &&& order.no_duplicates()
    &&& order.to_set() == calls
    &&& sorted_by(order, ranks_before(weight))
}

/// The ranking of `calls` by `weight`.
pub open spec fn ranking(calls: Set<u64>, weight: spec_fn(u64) -> nat) -> Seq<u64> {
    choose|order: Seq<u64>| is_ranking(calls, weight, order)
}

/// A set of system calls has at most one ranking: whoever ranks the same
/// calls by the same weights arrives at the same order.
pub proof fn lemma_ranking_unique(
    calls: Set<u64>,
    weight: spec_fn(u64) -> nat,
    first: Seq<u64>,
    second: Seq<u64>,
)
    requires
        is_ranking(calls, weight, first),
        is_ranking(calls, weight, second),
    ensures
        first == second,
{
    broadcast use vstd::seq_lib::group_to_multiset_ensures;

    let order = ranks_before(weight);
    assert(total_ordering(order));
    first.lemma_multiset_has_no_duplicates();
    second.lemma_multiset_has_no_duplicates();
    assert forall|call: u64| first.to_multiset().count(call) == second.to_multiset().count(
        call,
    ) by {
        assert(first.contains(call) <==> first.to_set().contains(call));
        assert(second.contains(call) <==> second.to_set().contains(call));
    }
    assert(first.to_multiset() =~= second.to_multiset());
    lemma_sorted_unique(first, second, order);
}

/// A ranking, once found, is the ranking.
pub proof fn lemma_ranking_found(calls: Set<u64>, weight: spec_fn(u64) -> nat, order: Seq<u64>)
    requires
        is_ranking(calls, weight, order),
    ensures
        ranking(calls, weight) == order,
{
    lemma_ranking_unique(calls, weight, ranking(calls, weight), order);
}

/// A system call and the weight it is ranked by.
#[derive(Clone, Copy, Debug, PartialEq, Eq)]
pub struct Weighted {
    pub sysno: u64,
    pub weight: u64,
}

impl Weighted {
    /// Whether `self` comes before `other` in a summary, or weighs the same
    /// and has the same number.
    pub open spec fn comes_before(self, other: Weighted) -> bool {
        self.weight > other.weight || (self.weight == other.weight && self.sysno <= other.sysno)
    }
}

/// Whether each of `calls` comes before all that follow it.
pub open spec fn is_ranked(calls: Seq<Weighted>) -> bool {
    forall|i: int, j: int| 0 <= i < j < calls.len() ==> calls[i].comes_before(calls[j])
}

/// Puts `calls` in the order of a summary: the same calls, each as often as
/// before, the heaviest first.
pub fn rank(calls: &Vec<Weighted>) -> (ranked: Vec<Weighted>)
    ensures
        ranked@.to_multiset() == calls@.to_multiset(),
        is_ranked(ranked@),
{
    let mut ranked: Vec<Weighted> = Vec::new();
    let mut i: usize = 0;
    assert(calls@.take(0) =~= Seq::<Weighted>::empty());
    while i < calls.len()
        invariant
            i <= calls.len(),
            ranked@.to_multiset() == calls@.take(i as int).to_multiset(),
            is_ranked(ranked@),
        decreases calls.len() - i,
    {
        let call: Weighted = calls[i];
        let mut at: usize = 0;
        while at < ranked.len() && !(call.weight > ranked[at].weight || (call.weight
            == ranked[at].weight && call.sysno <= ranked[at].sysno))
            invariant
                at <= ranked.len(),
                forall|k: int| 0 <= k < at ==> (#[trigger] ranked[k]).comes_before(call),
            decreases ranked.len() - at,
        {
            at += 1;
        }
        let ghost before = ranked@;
        ranked.insert(at, call);
        proof {
            before.insert_ensures(at as int, call);
            vstd::seq_lib::to_multiset_insert(before, at as int, call);
            vstd::seq_lib::to_multiset_build(calls@.take(i as int), call);
            assert(calls@.take(i + 1) =~= calls@.take(i as int).push(call));
            assert forall|a: int, b: int| 0 <= a < b < ranked@.len() implies ranked@[a].comes_before(
                ranked@[b],
            ) by {
                if b < at {
                    assert(ranked@[a] == before[a] && ranked@[b] == before[b]);
                } else if b == at {
                    assert(ranked@[a] == before[a]);
                } else if a < at {
                    assert(ranked@[a] == before[a] && ranked@[b] == before[b - 1]);
                } else if a == at {
                    assert(ranked@[b] == before[b - 1]);
                    assert(call.comes_before(before[at as int]));
                    assert(at < b - 1 ==> before[at as int].comes_before(before[b - 1]));
                } else {
                    assert(ranked@[a] == before[a - 1] && ranked@[b] == before[b - 1]);
                }
            }
        }
        i += 1;
    }
    assert(calls@.take(i as int) =~= calls@);
    ranked
}

/// Whether `listed` holds each of `calls` once, and no other, each with its
/// weight.
pub open spec fn lists(calls: Set<u64>, weight: spec_fn(u64) -> nat, listed: Seq<Weighted>) -> bool {
    &&& forall|i: int|
        0 <= i < listed.len() ==> calls.contains((#[trigger] listed[i]).sysno) && listed[i].weight
            == weight(listed[i].sysno)
    &&& forall|call: u64| #[trigger]
        calls.contains(call) ==> exists|i: int| 0 <= i < listed.len() && #[trigger] listed[i].sysno == call
    &&& forall|i: int, j: int|
        0 <= i < j < listed.len() ==> (#[trigger] listed[i]).sysno != (#[trigger] listed[j]).sysno
}

/// The system calls of a list, in its order.
pub open spec fn numbers(listed: Seq<Weighted>) -> Seq<u64> {
    listed.map_values(|call: Weighted| call.sysno)
}

/// A list of calls put in order is the ranking of those calls.
pub proof fn lemma_ranked_list_is_ranking(
    calls: Set<u64>,
    weight: spec_fn(u64) -> nat,
    listed: Seq<Weighted>,
    ranked: Seq<Weighted>,
)
    requires
        lists(calls, weight, listed),
        ranked.to_multiset() == listed.to_multiset(),
        is_ranked(ranked),
    ensures
        lists(calls, weight, ranked),
        numbers(ranked) == ranking(calls, weight),
{
    broadcast use vstd::seq_lib::group_to_multiset_ensures;

    assert forall|i: int| 0 <= i < ranked.len() implies calls.contains(
        (#[trigger] ranked[i]).sysno,
    ) && ranked[i].weight == weight(ranked[i].sysno) by {
        assert(ranked.contains(ranked[i]));
        assert(listed.to_multiset().count(ranked[i]) > 0);
        assert(listed.contains(ranked[i]));
    }
    assert forall|call: u64| #[trigger] calls.contains(call) implies exists|i: int|
        0 <= i < ranked.len() && #[trigger] ranked[i].sysno == call by {
        let k = choose|k: int| 0 <= k < listed.len() && #[trigger] listed[k].sysno == call;
        assert(listed.contains(listed[k]));
        assert(ranked.to_multiset().count(listed[k]) > 0);
        assert(ranked.contains(listed[k]));
        let i = choose|i: int| 0 <= i < ranked.len() && ranked[i] == listed[k];
        assert(ranked[i].sysno == call);
    }
    assert(listed.no_duplicates());
    listed.lemma_multiset_has_no_duplicates();
    ranked.lemma_multiset_has_no_duplicates_conv();
    assert forall|i: int, j: int| 0 <= i < j < ranked.len() implies (#[trigger] ranked[i]).sysno
        != (#[trigger] ranked[j]).sysno by {
        if ranked[i].sysno == ranked[j].sysno {
            assert(ranked.contains(ranked[i]));
            assert(ranked.contains(ranked[j]));
            assert(listed.to_multiset().count(ranked[i]) > 0);
            assert(listed.to_multiset().count(ranked[j]) > 0);
            assert(listed.contains(ranked[i]));
            assert(listed.contains(ranked[j]));
            let a = choose|a: int| 0 <= a < listed.len() && listed[a] == ranked[i];
            let b = choose|b: int| 0 <= b < listed.len() && listed[b] == ranked[j];
            assert(a == b);
        }
    }
    let order = numbers(ranked);
    assert(order.no_duplicates());
    assert(order.to_set() =~= calls) by {
        assert forall|call: u64| order.to_set().contains(call) <==> calls.contains(call) by {
            if calls.contains(call) {
                let i = choose|i: int| 0 <= i < ranked.len() && #[trigger] ranked[i].sysno == call;
                assert(order[i] == call);
                assert(order.contains(call));
            }
            if order.contains(call) {
                let i = choose|i: int| 0 <= i < order.len() && order[i] == call;
                assert(ranked[i].sysno == call);
            }
        }
    }
    assert(sorted_by(order, ranks_before(weight))) by {
        assert forall|i: int, j: int| 0 <= i < j < order.len() implies #[trigger] ranks_before(
            weight,
        )(order[i], order[j]) by {
            assert(ranked[i].comes_before(ranked[j]));
        }
    }
    lemma_ranking_found(calls, weight, order);
}

} // verus!
