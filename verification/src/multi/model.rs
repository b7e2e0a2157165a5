//! The mathematical model of a result set: keys, outcomes and their classes.

use vstd::prelude::*;
use vstd::std_specs::cmp::PartialEqSpec;

verus! {

/// `==` on `T` is specified and is reflexive, symmetric and transitive.
pub open spec fn is_equivalence<T: PartialEq>() -> bool {
    &&& T::obeys_eq_spec()
    &&& forall|x: T| #[trigger] x.eq_spec(&x)
    &&& forall|x: T, y: T| #[trigger] x.eq_spec(&y) ==> y.eq_spec(&x)
    &&& forall|x: T, y: T, z: T| #[trigger] x.eq_spec(&y) && #[trigger] y.eq_spec(&z) ==> x.eq_spec(&z)
}

/// No two entries of `entries` have equal keys.
pub open spec fn distinct_keys<K: PartialEq, O>(entries: Seq<(K, O)>) -> bool {
    forall|i: int, j: int|
        0 <= i < j < entries.len() ==> !(#[trigger] entries[i]).0.eq_spec(&(#[trigger] entries[j]).0)
}

/// The entry at `second` repeats the key of the entry at `first`, and it is the
/// first repetition in `entries`: no entry before `second` repeats a key, and
/// no entry before `first` has that key.
pub open spec fn first_repeated_key<K: PartialEq, O>(entries: Seq<(K, O)>, first: int, second: int) -> bool {
    &&& 0 <= first < second < entries.len()
    &&& entries[first].0.eq_spec(&entries[second].0)
    &&& distinct_keys(entries.take(second))
    &&& forall|i: int| 0 <= i < first ==> !(#[trigger] entries[i]).0.eq_spec(&entries[second].0)
}

/// What the provider `key` answered: the outcome of the first entry whose key
/// equals `key`, if there is one.
pub open spec fn lookup<K: PartialEq, O>(entries: Seq<(K, O)>, key: K) -> Option<O>
    decreases entries.len(),
{
    if entries.len() == 0 {
        None
    } else if entries[0].0.eq_spec(&key) {
        Some(entries[0].1)
    } else {
        lookup(entries.drop_first(), key)
    }
}

/// Two outcomes belong to the same class: both succeeded with equal values, or
/// both failed with equal errors. A success and a failure never share a class.
pub open spec fn same_class<V: PartialEq, E: PartialEq>(a: Result<V, E>, b: Result<V, E>) -> bool {
    match (a, b) {
        (Ok(x), Ok(y)) => x.eq_spec(&y),
        (Err(x), Err(y)) => x.eq_spec(&y),
        _ => false,
    }
}

/// Two lists hold equal entries in the same order: as many entries, and at
/// every place equal keys and outcomes of the same class.
pub open spec fn same_entries<K: PartialEq, V: PartialEq, E: PartialEq>(
    a: Seq<(K, Result<V, E>)>,
    b: Seq<(K, Result<V, E>)>,
) -> bool {
    &&& a.len() == b.len()
    &&& forall|i: int|
        0 <= i < a.len() ==> (#[trigger] a[i]).0.eq_spec(&b[i].0) && same_class(a[i].1, b[i].1)
}

/// Every outcome belongs to one and the same class.
pub open spec fn unanimous<V: PartialEq, E: PartialEq>(outcomes: Seq<Result<V, E>>) -> bool {
    forall|i: int, j: int|
        0 <= i < outcomes.len() && 0 <= j < outcomes.len() ==> same_class(
            #[trigger] outcomes[i],
            #[trigger] outcomes[j],
        )
}

/// The number of outcomes in the class of `x`.
pub open spec fn class_size<V: PartialEq, E: PartialEq>(outcomes: Seq<Result<V, E>>, x: Result<V, E>) -> nat
    decreases outcomes.len(),
{
    if outcomes.len() == 0 {
        0
    } else {
        class_size(outcomes.drop_last(), x) + if same_class(x, outcomes.last()) {
            1nat
        } else {
            0nat
        }
    }
}

/// The outcome at `i` is the first one of its class.
pub open spec fn opens_class<V: PartialEq, E: PartialEq>(outcomes: Seq<Result<V, E>>, i: int) -> bool {
    &&& 0 <= i < outcomes.len()
    &&& forall|j: int| 0 <= j < i ==> !same_class(#[trigger] outcomes[j], outcomes[i])
}

/// The outcome at `i` opens the largest class of successes. Where several
/// classes of successes are the largest, it opens the one that was seen first.
pub open spec fn leads_successes<V: PartialEq, E: PartialEq>(outcomes: Seq<Result<V, E>>, i: int) -> bool {
    &&& opens_class(outcomes, i)
    &&& outcomes[i] is Ok
    &&& forall|j: int|
        0 <= j < outcomes.len() && (#[trigger] outcomes[j]) is Ok ==> class_size(outcomes, outcomes[j])
            <= class_size(outcomes, outcomes[i])
    &&& forall|j: int|
        0 <= j < i && (#[trigger] outcomes[j]) is Ok ==> class_size(outcomes, outcomes[j]) < class_size(
            outcomes,
            outcomes[i],
        )
}

/// One class of the outcomes of a result set.
#[derive(Clone, Copy, Debug, PartialEq, Eq)]
pub struct OutcomeClass {
    /// The place of the first outcome of the class.
    pub first: usize,
    /// The number of outcomes in the class.
    pub size: usize,
}

/// `classes` lists every class of `outcomes` once, in the order in which the
/// classes open, each with the place of its first outcome and its size.
pub open spec fn is_partition<V: PartialEq, E: PartialEq>(
    outcomes: Seq<Result<V, E>>,
    classes: Seq<OutcomeClass>,
) -> bool {
    &&& forall|k: int|
        0 <= k < classes.len() ==> opens_class(outcomes, (#[trigger] classes[k]).first as int)
            && classes[k].size == class_size(outcomes, outcomes[classes[k].first as int])
    &&& forall|k: int, l: int|
        0 <= k < l < classes.len() ==> (#[trigger] classes[k]).first < (#[trigger] classes[l]).first
    &&& forall|i: int| #[trigger]
        opens_class(outcomes, i) ==> exists|k: int|
            0 <= k < classes.len() && (#[trigger] classes[k]).first == i
}

/// Tells whether two outcomes belong to the same class.
pub fn same_outcome<V: PartialEq, E: PartialEq>(a: &Result<V, E>, b: &Result<V, E>) -> (same: bool)
    requires
        V::obeys_eq_spec(),
        E::obeys_eq_spec(),
    ensures
        same == same_class(*a, *b),
{
    match (a, b) {
        (Ok(x), Ok(y)) => *x == *y,
        (Err(x), Err(y)) => *x == *y,
        _ => false,
    }
}

} // verus!
