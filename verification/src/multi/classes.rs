//! Sorting the outcomes of a result set into classes.

use vstd::prelude::*;
use vstd::std_specs::cmp::PartialEqSpec;
use crate::multi::model::{
    class_size, is_equivalence, is_partition, opens_class, same_class, same_outcome, OutcomeClass,
};
use crate::multi::proofs::{
    lemma_class_opener, lemma_class_reflexive, lemma_class_size_bound, lemma_class_size_zero,
    lemma_class_symmetric, lemma_class_transitive, lemma_openers_differ,
};
use crate::multi::results::MultiResults;

verus! {

/// A partition of the first `n` outcomes stays one when the next outcome joins
/// the class at `k`.
proof fn lemma_partition_joins<V: PartialEq, E: PartialEq>(
    outcomes: Seq<Result<V, E>>,
    n: int,
    before: Seq<OutcomeClass>,
    k: int,
    after: Seq<OutcomeClass>,
)
    requires
        is_equivalence::<V>(),
        is_equivalence::<E>(),
        0 <= n < outcomes.len(),
        is_partition(outcomes.take(n), before),
        0 <= k < before.len(),
        same_class(outcomes[before[k].first as int], outcomes[n]),
        before[k].size < usize::MAX,
        after == before.update(k, OutcomeClass { first: before[k].first, size: (before[k].size + 1) as usize }),
    ensures
        is_partition(outcomes.take(n + 1), after),
{
    let short = outcomes.take(n);
    let long = outcomes.take(n + 1);
    assert(long.drop_last() == short);
    assert(long.last() == outcomes[n]);
    assert forall|l: int| 0 <= l < after.len() implies opens_class(long, (#[trigger] after[l]).first as int)
        && after[l].size == class_size(long, long[after[l].first as int]) by {
        let f = before[l].first as int;
        assert(opens_class(short, f));
        assert(after[l].first == f);
        assert(long[f] == short[f]);
        assert forall|j: int| 0 <= j < f implies !same_class(#[trigger] long[j], long[f]) by {
            assert(long[j] == short[j]);
        }
        if l != k {
            let g = before[k].first as int;
            assert(opens_class(short, g));
            if l < k {
                assert(before[l].first < before[k].first);
            } else {
                assert(before[k].first < before[l].first);
            }
            lemma_openers_differ(short, f, g);
            assert(short[g] == outcomes[g]);
            if same_class(short[f], outcomes[n]) {
                lemma_class_symmetric(short[g], outcomes[n]);
                lemma_class_transitive(short[f], outcomes[n], short[g]);
            }
        }
    }
    assert forall|l: int, m: int| 0 <= l < m < after.len() implies (#[trigger] after[l]).first < (
    #[trigger] after[m]).first by {
        assert(before[l].first < before[m].first);
    }
    assert forall|i: int| #[trigger] opens_class(long, i) implies exists|l: int|
        0 <= l < after.len() && (#[trigger] after[l]).first == i by {
        let g = before[k].first as int;
        assert(opens_class(short, g));
        assert(long[g] == outcomes[g]);
        if i == n {
            assert(!same_class(long[g], long[n]));
        }
        assert forall|j: int| 0 <= j < i implies !same_class(#[trigger] short[j], short[i]) by {
            assert(long[j] == short[j]);
            assert(!same_class(long[j], long[i]));
        }
        assert(opens_class(short, i));
        let l = choose|l: int| 0 <= l < before.len() && (#[trigger] before[l]).first == i;
        assert(after[l].first == i);
    }
}

/// A partition of the first `n` outcomes stays one when the next outcome, which
/// matches none of its classes, opens a class of its own.
proof fn lemma_partition_opens<V: PartialEq, E: PartialEq>(
    outcomes: Seq<Result<V, E>>,
    n: int,
    before: Seq<OutcomeClass>,
    after: Seq<OutcomeClass>,
)
    requires
        is_equivalence::<V>(),
        is_equivalence::<E>(),
        0 <= n < outcomes.len(),
        n <= usize::MAX,
        is_partition(outcomes.take(n), before),
        forall|k: int|
            0 <= k < before.len() ==> !same_class(outcomes[(#[trigger] before[k]).first as int], outcomes[n]),
        after == before.push(OutcomeClass { first: n as usize, size: 1 }),
    ensures
        is_partition(outcomes.take(n + 1), after),
{
    let short = outcomes.take(n);
    let long = outcomes.take(n + 1);
    assert(long.drop_last() == short);
    assert(long.last() == outcomes[n]);
    assert forall|j: int| 0 <= j < n implies !same_class(#[trigger] short[j], outcomes[n]) by {
        let h = lemma_class_opener(short, j);
        let k = choose|k: int| 0 <= k < before.len() && (#[trigger] before[k]).first == h;
        assert(short[h] == outcomes[h]);
        if same_class(short[j], outcomes[n]) {
            lemma_class_transitive(short[h], short[j], outcomes[n]);
        }
    }
    assert forall|l: int| 0 <= l < after.len() implies opens_class(long, (#[trigger] after[l]).first as int)
        && after[l].size == class_size(long, long[after[l].first as int]) by {
        if l < before.len() {
            let f = before[l].first as int;
            assert(opens_class(short, f));
            assert(long[f] == short[f]);
            assert(short[f] == outcomes[f]);
            assert forall|j: int| 0 <= j < f implies !same_class(#[trigger] long[j], long[f]) by {
                assert(long[j] == short[j]);
            }
        } else {
            assert(after[l].first == n);
            assert forall|j: int| 0 <= j < n implies !same_class(#[trigger] long[j], long[n]) by {
                assert(long[j] == short[j]);
            }
            assert forall|j: int| 0 <= j < short.len() implies !same_class(outcomes[n], #[trigger] short[j]) by {
                lemma_class_symmetric(outcomes[n], short[j]);
            }
            lemma_class_size_zero(short, outcomes[n]);
            lemma_class_reflexive(outcomes[n]);
        }
    }
    assert forall|l: int, m: int| 0 <= l < m < after.len() implies (#[trigger] after[l]).first < (
    #[trigger] after[m]).first by {
        assert(opens_class(short, before[l].first as int));
        if m < before.len() {
            assert(before[l].first < before[m].first);
        }
    }
    assert forall|i: int| #[trigger] opens_class(long, i) implies exists|l: int|
        0 <= l < after.len() && (#[trigger] after[l]).first == i by {
        if i == n {
            assert(after[before.len() as int].first == i);
        } else {
            assert forall|j: int| 0 <= j < i implies !same_class(#[trigger] short[j], short[i]) by {
                assert(long[j] == short[j]);
                assert(!same_class(long[j], long[i]));
            }
            assert(opens_class(short, i));
            let l = choose|l: int| 0 <= l < before.len() && (#[trigger] before[l]).first == i;
            assert(after[l].first == i);
        }
    }
}

impl<K, V: PartialEq, E: PartialEq> MultiResults<K, V, E> {
    /// The classes of the outcomes, in the order in which they open: for each
    /// class the place of its first outcome and the number of its outcomes.
    pub fn classes(&self) -> (classes: Vec<OutcomeClass>)
        requires
            is_equivalence::<V>(),
            is_equivalence::<E>(),
        ensures
            is_partition(self.outcomes(), classes@),
    {
        let ghost outcomes = self.outcomes();
        let count = self.len();
        let mut classes: Vec<OutcomeClass> = Vec::new();
        let mut next: usize = 0;
        assert(is_partition(outcomes.take(0), classes@));
        while next < count
            invariant
                is_equivalence::<V>(),
                is_equivalence::<E>(),
                outcomes == self.outcomes(),
                count == self@.len(),
                next <= count,
                is_partition(outcomes.take(next as int), classes@),
            decreases count - next,
        {
            let ghost before = classes@;
            let mut k: usize = 0;
            while k < classes.len() && !same_outcome(self.outcome(classes[k].first), self.outcome(next))
                invariant
                    is_equivalence::<V>(),
                    is_equivalence::<E>(),
                    outcomes == self.outcomes(),
                    count == self@.len(),
                    next < count,
                    classes@ == before,
                    is_partition(outcomes.take(next as int), before),
                    k <= classes.len(),
                    forall|l: int|
                        0 <= l < k ==> !same_class(outcomes[(#[trigger] before[l]).first as int], outcomes[next as int]),
                decreases classes.len() - k,
            {
                proof {
                    assert(opens_class(outcomes.take(next as int), before[k as int].first as int));
                }
                k += 1;
            }
            if k < classes.len() {
                let class = classes[k];
                proof {
                    let f = class.first as int;
                    assert(opens_class(outcomes.take(next as int), f));
                    assert(outcomes.take(next as int)[f] == outcomes[f]);
                    lemma_class_size_bound(outcomes.take(next as int), outcomes[f]);
                }
                classes.set(k, OutcomeClass { first: class.first, size: class.size + 1 });
                proof {
                    lemma_partition_joins(outcomes, next as int, before, k as int, classes@);
                }
            } else {
                classes.push(OutcomeClass { first: next, size: 1 });
                proof {
                    lemma_partition_opens(outcomes, next as int, before, classes@);
                }
            }
            next += 1;
        }
        assert(outcomes.take(count as int) == outcomes);
        classes
    }
}

} // verus!
