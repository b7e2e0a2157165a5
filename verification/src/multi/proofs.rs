//! Facts about classes of outcomes that the reductions rest on.

use vstd::prelude::*;
use vstd::std_specs::cmp::PartialEqSpec;
use crate::multi::model::{
    class_size, is_equivalence, is_partition, leads_successes, opens_class, same_class, unanimous,
    OutcomeClass,
};

verus! {

/// Every outcome is in its own class.
pub proof fn lemma_class_reflexive<V: PartialEq, E: PartialEq>(a: Result<V, E>)
    requires
        is_equivalence::<V>(),
        is_equivalence::<E>(),
    ensures
        same_class(a, a),
{
}

/// Being in the same class does not depend on which outcome is named first.
pub proof fn lemma_class_symmetric<V: PartialEq, E: PartialEq>(a: Result<V, E>, b: Result<V, E>)
    requires
        is_equivalence::<V>(),
        is_equivalence::<E>(),
    ensures
        same_class(a, b) == same_class(b, a),
{
}

/// Two outcomes that share a class with a third share a class.
pub proof fn lemma_class_transitive<V: PartialEq, E: PartialEq>(
    a: Result<V, E>,
    b: Result<V, E>,
    c: Result<V, E>,
)
    requires
        is_equivalence::<V>(),
        is_equivalence::<E>(),
        same_class(a, b),
        same_class(b, c),
    ensures
        same_class(a, c),
{
}

/// Outcomes of one class are both successes or both failures.
pub proof fn lemma_class_keeps_variant<V: PartialEq, E: PartialEq>(a: Result<V, E>, b: Result<V, E>)
    requires
        same_class(a, b),
    ensures
        a is Ok <==> b is Ok,
{
}

/// A class has no more members than there are outcomes.
pub proof fn lemma_class_size_bound<V: PartialEq, E: PartialEq>(outcomes: Seq<Result<V, E>>, x: Result<V, E>)
    ensures
        class_size(outcomes, x) <= outcomes.len(),
    decreases outcomes.len(),
{
    if outcomes.len() > 0 {
        lemma_class_size_bound(outcomes.drop_last(), x);
    }
}

/// The class of an outcome that matches none of `outcomes` is empty there.
pub proof fn lemma_class_size_zero<V: PartialEq, E: PartialEq>(outcomes: Seq<Result<V, E>>, x: Result<V, E>)
    requires
        forall|j: int| 0 <= j < outcomes.len() ==> !same_class(x, #[trigger] outcomes[j]),
    ensures
        class_size(outcomes, x) == 0,
    decreases outcomes.len(),
{
    if outcomes.len() > 0 {
        let shorter = outcomes.drop_last();
        assert forall|j: int| 0 <= j < shorter.len() implies !same_class(x, #[trigger] shorter[j]) by {
            assert(shorter[j] == outcomes[j]);
        }
        lemma_class_size_zero(shorter, x);
        assert(outcomes.last() == outcomes[outcomes.len() - 1]);
    }
}

/// Outcomes of one class have classes of one size.
pub proof fn lemma_class_size_same<V: PartialEq, E: PartialEq>(
    outcomes: Seq<Result<V, E>>,
    x: Result<V, E>,
    y: Result<V, E>,
)
    requires
        is_equivalence::<V>(),
        is_equivalence::<E>(),
        same_class(x, y),
    ensures
        class_size(outcomes, x) == class_size(outcomes, y),
    decreases outcomes.len(),
{
    if outcomes.len() > 0 {
        lemma_class_size_same(outcomes.drop_last(), x, y);
        let last = outcomes.last();
        lemma_class_symmetric(x, y);
        if same_class(x, last) {
            lemma_class_transitive(y, x, last);
        }
        if same_class(y, last) {
            lemma_class_transitive(x, y, last);
        }
    }
}

/// Every outcome has, at or before its place, the outcome that opens its class.
pub proof fn lemma_class_opener<V: PartialEq, E: PartialEq>(outcomes: Seq<Result<V, E>>, i: int) -> (h: int)
    requires
        is_equivalence::<V>(),
        is_equivalence::<E>(),
        0 <= i < outcomes.len(),
    ensures
        0 <= h <= i,
        opens_class(outcomes, h),
        same_class(outcomes[h], outcomes[i]),
    decreases i,
{
    if exists|j: int| 0 <= j < i && same_class(#[trigger] outcomes[j], outcomes[i]) {
        let j = choose|j: int| 0 <= j < i && same_class(#[trigger] outcomes[j], outcomes[i]);
        let h = lemma_class_opener(outcomes, j);
        lemma_class_transitive(outcomes[h], outcomes[j], outcomes[i]);
        h
    } else {
        lemma_class_reflexive(outcomes[i]);
        i
    }
}

/// Two outcomes that each open a class are in different classes.
pub proof fn lemma_openers_differ<V: PartialEq, E: PartialEq>(outcomes: Seq<Result<V, E>>, g: int, h: int)
    requires
        is_equivalence::<V>(),
        is_equivalence::<E>(),
        opens_class(outcomes, g),
        opens_class(outcomes, h),
        g != h,
    ensures
        !same_class(outcomes[g], outcomes[h]),
{
    lemma_class_symmetric(outcomes[g], outcomes[h]);
    if g < h {
        assert(!same_class(outcomes[g], outcomes[h]));
    } else {
        assert(!same_class(outcomes[h], outcomes[g]));
    }
}

/// At most one outcome leads the successes.
pub proof fn lemma_leader_unique<V: PartialEq, E: PartialEq>(outcomes: Seq<Result<V, E>>, g: int, h: int)
    requires
        leads_successes(outcomes, g),
        leads_successes(outcomes, h),
    ensures
        g == h,
{
    if g < h {
        assert(outcomes[g] is Ok);
        assert(class_size(outcomes, outcomes[g]) < class_size(outcomes, outcomes[h]));
        assert(class_size(outcomes, outcomes[h]) <= class_size(outcomes, outcomes[g]));
    }
    if h < g {
        assert(outcomes[h] is Ok);
        assert(class_size(outcomes, outcomes[h]) < class_size(outcomes, outcomes[g]));
        assert(class_size(outcomes, outcomes[g]) <= class_size(outcomes, outcomes[h]));
    }
}

/// Outcomes are unanimous exactly when all of them match the first.
pub proof fn lemma_unanimous_by_first<V: PartialEq, E: PartialEq>(outcomes: Seq<Result<V, E>>)
    requires
        is_equivalence::<V>(),
        is_equivalence::<E>(),
        outcomes.len() > 0,
    ensures
        unanimous(outcomes) <==> forall|i: int|
            0 <= i < outcomes.len() ==> same_class(outcomes[0], #[trigger] outcomes[i]),
{
    if forall|i: int| 0 <= i < outcomes.len() ==> same_class(outcomes[0], #[trigger] outcomes[i]) {
        assert forall|i: int, j: int| 0 <= i < outcomes.len() && 0 <= j < outcomes.len() implies same_class(
            #[trigger] outcomes[i],
            #[trigger] outcomes[j],
        ) by {
            lemma_class_symmetric(outcomes[0], outcomes[i]);
            lemma_class_transitive(outcomes[i], outcomes[0], outcomes[j]);
        }
    }
}

/// A partition of outcomes that are not empty has one class exactly when the
/// outcomes are unanimous.
pub proof fn lemma_one_class_is_unanimous<V: PartialEq, E: PartialEq>(
    outcomes: Seq<Result<V, E>>,
    classes: Seq<OutcomeClass>,
)
    requires
        is_equivalence::<V>(),
        is_equivalence::<E>(),
        outcomes.len() > 0,
        is_partition(outcomes, classes),
    ensures
        classes.len() >= 1,
        classes[0].first == 0,
        classes.len() == 1 <==> unanimous(outcomes),
{
    assert(opens_class(outcomes, 0));
    let k0 = choose|k: int| 0 <= k < classes.len() && (#[trigger] classes[k]).first == 0;
    if k0 > 0 {
        assert(classes[0].first < classes[k0].first);
    }
    lemma_unanimous_by_first(outcomes);
    if classes.len() == 1 {
        assert forall|i: int| 0 <= i < outcomes.len() implies same_class(outcomes[0], #[trigger] outcomes[i]) by {
            let h = lemma_class_opener(outcomes, i);
            let k = choose|k: int| 0 <= k < classes.len() && (#[trigger] classes[k]).first == h;
            assert(k == 0);
        }
    } else {
        let g = classes[1].first as int;
        assert(classes[0].first < classes[1].first);
        assert(opens_class(outcomes, g));
        assert(!same_class(outcomes[0], outcomes[g]));
    }
}

} // verus!

verus! {

/// In a partition, the first class of successes that is larger than every
/// class of successes before it, and as large as every one after it, is opened
/// by the outcome that leads the successes.
pub proof fn lemma_leader_of_partition<V: PartialEq, E: PartialEq>(
    outcomes: Seq<Result<V, E>>,
    classes: Seq<OutcomeClass>,
    b: int,
)
    requires
        is_equivalence::<V>(),
        is_equivalence::<E>(),
        is_partition(outcomes, classes),
        0 <= b < classes.len(),
        outcomes[classes[b].first as int] is Ok,
        forall|l: int|
            0 <= l < classes.len() && outcomes[(#[trigger] classes[l]).first as int] is Ok ==> classes[l].size
                <= classes[b].size,
        forall|l: int|
            0 <= l < b && outcomes[(#[trigger] classes[l]).first as int] is Ok ==> classes[l].size
                < classes[b].size,
    ensures
        leads_successes(outcomes, classes[b].first as int),
{
    let lead = classes[b].first as int;
    assert(opens_class(outcomes, lead));
    assert forall|j: int| 0 <= j < outcomes.len() && (#[trigger] outcomes[j]) is Ok implies class_size(
        outcomes,
        outcomes[j],
    ) <= class_size(outcomes, outcomes[lead]) && (j < lead ==> class_size(outcomes, outcomes[j]) < class_size(
        outcomes,
        outcomes[lead],
    )) by {
        let h = lemma_class_opener(outcomes, j);
        let l = choose|l: int| 0 <= l < classes.len() && (#[trigger] classes[l]).first == h;
        lemma_class_keeps_variant(outcomes[h], outcomes[j]);
        lemma_class_size_same(outcomes, outcomes[h], outcomes[j]);
        assert(classes[l].size <= classes[b].size);
        if j < lead {
            if l >= b {
                if l > b {
                    assert(classes[b].first < classes[l].first);
                }
                assert(false);
            }
            assert(classes[l].size < classes[b].size);
        }
    }
}

/// In a partition whose classes are all opened by failures, every outcome is a
/// failure.
pub proof fn lemma_failures_only<V: PartialEq, E: PartialEq>(
    outcomes: Seq<Result<V, E>>,
    classes: Seq<OutcomeClass>,
)
    requires
        is_equivalence::<V>(),
        is_equivalence::<E>(),
        is_partition(outcomes, classes),
        forall|l: int| 0 <= l < classes.len() ==> outcomes[(#[trigger] classes[l]).first as int] is Err,
    ensures
        forall|j: int| 0 <= j < outcomes.len() ==> (#[trigger] outcomes[j]) is Err,
{
    assert forall|j: int| 0 <= j < outcomes.len() implies (#[trigger] outcomes[j]) is Err by {
        let h = lemma_class_opener(outcomes, j);
        let l = choose|l: int| 0 <= l < classes.len() && (#[trigger] classes[l]).first == h;
        lemma_class_keeps_variant(outcomes[h], outcomes[j]);
    }
}

} // verus!

verus! {

/// Among the first `n` outcomes, the place of the success whose class is the
/// largest, the earliest such place where several are; -1 where none of them
/// is a success.
spec fn front_runner<V: PartialEq, E: PartialEq>(outcomes: Seq<Result<V, E>>, n: nat) -> int
    decreases n,
{
    if n == 0 {
        -1
    } else {
        let before = front_runner(outcomes, (n - 1) as nat);
        let candidate = n - 1;
        if outcomes[candidate] is Ok && (before < 0 || class_size(outcomes, outcomes[candidate]) > class_size(
            outcomes,
            outcomes[before],
        )) {
            candidate
        } else {
            before
        }
    }
}

proof fn lemma_front_runner<V: PartialEq, E: PartialEq>(outcomes: Seq<Result<V, E>>, n: nat)
    requires
        n <= outcomes.len(),
    ensures
        ({
            let r = front_runner(outcomes, n);
            &&& -1 <= r < n
            &&& r < 0 ==> forall|j: int| 0 <= j < n ==> (#[trigger] outcomes[j]) is Err
            &&& r >= 0 ==> outcomes[r] is Ok
            &&& r >= 0 ==> forall|j: int|
                0 <= j < n && (#[trigger] outcomes[j]) is Ok ==> class_size(outcomes, outcomes[j]) <= class_size(
                    outcomes,
                    outcomes[r],
                )
            &&& r >= 0 ==> forall|j: int|
                0 <= j < r && (#[trigger] outcomes[j]) is Ok ==> class_size(outcomes, outcomes[j]) < class_size(
                    outcomes,
                    outcomes[r],
                )
        }),
    decreases n,
{
    if n > 0 {
        lemma_front_runner(outcomes, (n - 1) as nat);
    }
}

/// Where any provider succeeded, some outcome leads the successes.
pub proof fn lemma_leader_exists<V: PartialEq, E: PartialEq>(outcomes: Seq<Result<V, E>>, j: int) -> (lead: int)
    requires
        is_equivalence::<V>(),
        is_equivalence::<E>(),
        0 <= j < outcomes.len(),
        outcomes[j] is Ok,
    ensures
        leads_successes(outcomes, lead),
{
    let lead = front_runner(outcomes, outcomes.len());
    lemma_front_runner(outcomes, outcomes.len());
    assert forall|i: int| 0 <= i < lead implies !same_class(#[trigger] outcomes[i], outcomes[lead]) by {
        if same_class(outcomes[i], outcomes[lead]) {
            lemma_class_keeps_variant(outcomes[i], outcomes[lead]);
            lemma_class_size_same(outcomes, outcomes[i], outcomes[lead]);
        }
    }
    lead
}

} // verus!
