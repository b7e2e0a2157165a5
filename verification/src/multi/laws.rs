//! What holds of result sets and of the policies, whatever the providers say.

use vstd::prelude::*;
use vstd::std_specs::cmp::PartialEqSpec;
use crate::multi::model::{
    class_size, distinct_keys, first_repeated_key, is_equivalence, leads_successes, lookup, same_class,
    unanimous,
};
use crate::multi::pending::{completed, Progress};
use crate::multi::proofs::{
    lemma_class_size_bound, lemma_class_symmetric, lemma_class_transitive, lemma_leader_exists,
};
use crate::multi::reduce::{
    equality_answer, has_quorum, quorum_leader, threshold_answer, ReducedResult, ReductionError,
};
use crate::multi::results::MultiResults;

verus! {

/// A list of entries names some provider twice exactly when it has a first
/// repeated key.
pub proof fn lemma_repeated_key_breaks_distinctness<K: PartialEq, O>(entries: Seq<(K, O)>)
    ensures
        !distinct_keys(entries) <==> exists|first: int, second: int|
            first_repeated_key(entries, first, second),
{
    if exists|first: int, second: int| first_repeated_key(entries, first, second) {
        let (first, second) = choose|first: int, second: int| first_repeated_key(entries, first, second);
        assert(entries[first].0.eq_spec(&entries[second].0));
    }
    if !distinct_keys(entries) {
        lemma_first_repetition(entries, entries.len() as int);
        assert(entries.take(entries.len() as int) == entries);
    }
}

/// Among the first `n` entries, either no key is repeated or there is a first
/// repeated key.
proof fn lemma_first_repetition<K: PartialEq, O>(entries: Seq<(K, O)>, n: int)
    requires
        0 <= n <= entries.len(),
    ensures
        distinct_keys(entries.take(n)) || exists|first: int, second: int|
            second < n && first_repeated_key(entries, first, second),
    decreases n,
{
    if n > 0 {
        lemma_first_repetition(entries, n - 1);
        if distinct_keys(entries.take(n - 1)) && !distinct_keys(entries.take(n)) {
            let longer = entries.take(n);
            let shorter = entries.take(n - 1);
            let (i, j) = choose|i: int, j: int|
                0 <= i < j < longer.len() && (#[trigger] longer[i]).0.eq_spec(&(#[trigger] longer[j]).0);
            if j < n - 1 {
                assert(shorter[i] == longer[i] && shorter[j] == longer[j]);
            }
            let first = lemma_earliest_match(entries, i, n - 1);
            assert(first_repeated_key(entries, first, n - 1));
        }
    }
}

/// Of the entries before `second` whose key equals that of `second`, one is the
/// earliest.
proof fn lemma_earliest_match<K: PartialEq, O>(entries: Seq<(K, O)>, i: int, second: int) -> (first: int)
    requires
        0 <= i < second < entries.len(),
        entries[i].0.eq_spec(&entries[second].0),
    ensures
        0 <= first <= i,
        entries[first].0.eq_spec(&entries[second].0),
        forall|h: int| 0 <= h < first ==> !(#[trigger] entries[h]).0.eq_spec(&entries[second].0),
    decreases i,
{
    if exists|h: int| 0 <= h < i && (#[trigger] entries[h]).0.eq_spec(&entries[second].0) {
        let h = choose|h: int| 0 <= h < i && (#[trigger] entries[h]).0.eq_spec(&entries[second].0);
        lemma_earliest_match(entries, h, second)
    } else {
        i
    }
}

/// The first entry under a key is what a lookup of that key gives.
pub proof fn lemma_lookup_finds_first<K: PartialEq, O>(entries: Seq<(K, O)>, key: K, i: int)
    requires
        0 <= i < entries.len(),
        entries[i].0.eq_spec(&key),
        forall|h: int| 0 <= h < i ==> !(#[trigger] entries[h]).0.eq_spec(&key),
    ensures
        lookup(entries, key) == Some(entries[i].1),
    decreases i,
{
    if i > 0 {
        let rest = entries.drop_first();
        assert(!entries[0].0.eq_spec(&key));
        assert forall|h: int| 0 <= h < i - 1 implies !(#[trigger] rest[h]).0.eq_spec(&key) by {
            assert(rest[h] == entries[h + 1]);
        }
        assert(rest[i - 1] == entries[i]);
        lemma_lookup_finds_first(rest, key, i - 1);
    }
}

/// A lookup gives nothing exactly when no entry has the key.
pub proof fn lemma_lookup_misses<K: PartialEq, O>(entries: Seq<(K, O)>, key: K)
    ensures
        lookup(entries, key) is None <==> forall|h: int|
            0 <= h < entries.len() ==> !(#[trigger] entries[h]).0.eq_spec(&key),
    decreases entries.len(),
{
    if entries.len() > 0 {
        let rest = entries.drop_first();
        lemma_lookup_misses(rest, key);
        if !entries[0].0.eq_spec(&key) {
            if lookup(entries, key) is None {
                assert forall|h: int| 0 <= h < entries.len() implies !(#[trigger] entries[h]).0.eq_spec(
                    &key,
                ) by {
                    if h > 0 {
                        assert(rest[h - 1] == entries[h]);
                    }
                }
            } else {
                let h = choose|h: int| 0 <= h < rest.len() && (#[trigger] rest[h]).0.eq_spec(&key);
                assert(rest[h] == entries[h + 1]);
            }
        }
    }
}

/// In a list that names no provider twice, the entry under a key is the only
/// one, and a lookup of the key gives its outcome.
pub proof fn lemma_lookup_in_distinct<K: PartialEq, O>(entries: Seq<(K, O)>, key: K, i: int)
    requires
        is_equivalence::<K>(),
        distinct_keys(entries),
        0 <= i < entries.len(),
        entries[i].0.eq_spec(&key),
    ensures
        lookup(entries, key) == Some(entries[i].1),
{
    assert forall|h: int| 0 <= h < i implies !(#[trigger] entries[h]).0.eq_spec(&key) by {
        if entries[h].0.eq_spec(&key) {
            assert(key.eq_spec(&entries[i].0));
            assert(entries[h].0.eq_spec(&entries[i].0));
        }
    }
    lemma_lookup_finds_first(entries, key, i);
}

/// Order preservation: two lists that hold the same entries, in whatever
/// order, and name no provider twice answer every lookup alike. What a provider
/// answered does not depend on when its answer came in.
pub proof fn lemma_order_preservation<K: PartialEq, O>(a: Seq<(K, O)>, b: Seq<(K, O)>, key: K)
    requires
        is_equivalence::<K>(),
        distinct_keys(a),
        distinct_keys(b),
        a.to_multiset() == b.to_multiset(),
    ensures
        lookup(a, key) == lookup(b, key),
{
    lemma_lookup_misses(a, key);
    lemma_lookup_misses(b, key);
    if exists|i: int| 0 <= i < a.len() && (#[trigger] a[i]).0.eq_spec(&key) {
        let i = choose|i: int| 0 <= i < a.len() && (#[trigger] a[i]).0.eq_spec(&key);
        lemma_lookup_in_distinct(a, key, i);
        vstd::seq_lib::to_multiset_contains(a, a[i]);
        vstd::seq_lib::to_multiset_contains(b, a[i]);
        assert(a.contains(a[i]));
        let j = choose|j: int| 0 <= j < b.len() && b[j] == a[i];
        lemma_lookup_in_distinct(b, key, j);
    } else if exists|j: int| 0 <= j < b.len() && (#[trigger] b[j]).0.eq_spec(&key) {
        let j = choose|j: int| 0 <= j < b.len() && (#[trigger] b[j]).0.eq_spec(&key);
        vstd::seq_lib::to_multiset_contains(a, b[j]);
        vstd::seq_lib::to_multiset_contains(b, b[j]);
        assert(b.contains(b[j]));
        let i = choose|i: int| 0 <= i < a.len() && a[i] == b[j];
        assert(a[i].0.eq_spec(&key));
    }
}

/// The order in which two calls complete does not matter: whichever of them
/// is recorded first, the progress of the fan-out is the same afterwards.
pub proof fn lemma_completion_order_is_immaterial<K, V, E>(
    progress: Progress<K, V, E>,
    first: int,
    first_outcome: Result<V, E>,
    second: int,
    second_outcome: Result<V, E>,
)
    requires
        0 <= first < progress.len(),
        0 <= second < progress.len(),
        first != second,
    ensures
        completed(completed(progress, first, first_outcome), second, second_outcome) == completed(
            completed(progress, second, second_outcome),
            first,
            first_outcome,
        ),
{
    let first_done = completed(progress, first, first_outcome);
    let second_done = completed(progress, second, second_outcome);
    let first_call = (progress[first].0, Some(first_outcome));
    let second_call = (progress[second].0, Some(second_outcome));
    assert(first_done =~= progress.update(first, first_call));
    assert(second_done =~= progress.update(second, second_call));
    let one_way = completed(first_done, second, second_outcome);
    let other_way = completed(second_done, first, first_outcome);
    assert(first_done[second] == progress[second]);
    assert(second_done[first] == progress[first]);
    assert(one_way =~= first_done.update(second, second_call));
    assert(other_way =~= second_done.update(first, first_call));
    assert(one_way =~= other_way);
}

/// A quorum never trusts a failure that not all providers share: where any
/// provider succeeded, or two providers failed differently, the answer is no
/// shared error.
pub proof fn lemma_failure_needs_unanimity<K, V: PartialEq, E: PartialEq>(
    results: MultiResults<K, V, E>,
    threshold: nat,
    i: int,
    j: int,
)
    requires
        0 <= i < results@.len(),
        0 <= j < results@.len(),
        results.outcomes()[i] is Ok || !same_class(results.outcomes()[i], results.outcomes()[j]),
    ensures
        !(threshold_answer(results, threshold) matches Err(ReductionError::ConsistentError(_))),
{
    let outcomes = results.outcomes();
    if unanimous(outcomes) {
        assert(same_class(outcomes[i], outcomes[j]));
        assert(same_class(outcomes[0], outcomes[i]));
    }
}

/// Two answers of a policy say the same: the same value, the same shared
/// error, or a disagreement over the same entries.
pub open spec fn same_answer<K, V, E>(a: ReducedResult<K, V, E>, b: ReducedResult<K, V, E>) -> bool {
    match (a, b) {
        (Ok(x), Ok(y)) => x == y,
        (Err(ReductionError::ConsistentError(x)), Err(ReductionError::ConsistentError(y))) => x == y,
        (Err(ReductionError::InconsistentResults(x)), Err(ReductionError::InconsistentResults(y))) => x@
            == y@,
        _ => false,
    }
}

/// Result sets with the same entries have the same outcomes.
proof fn lemma_same_outcomes<K, V, E>(first: MultiResults<K, V, E>, second: MultiResults<K, V, E>)
    requires
        first@ == second@,
    ensures
        first.outcomes() == second.outcomes(),
{
}

/// Strict equality answers by the entries alone: settling the same entries
/// again gives the same answer.
pub proof fn lemma_equality_answer_repeats<K, V: PartialEq, E: PartialEq>(
    first: MultiResults<K, V, E>,
    second: MultiResults<K, V, E>,
)
    requires
        first@ == second@,
    ensures
        same_answer(equality_answer(first), equality_answer(second)),
{
    lemma_same_outcomes(first, second);
}

/// A quorum answers by the entries and the threshold alone: settling the same
/// entries again gives the same answer.
pub proof fn lemma_threshold_answer_repeats<K, V: PartialEq, E: PartialEq>(
    first: MultiResults<K, V, E>,
    second: MultiResults<K, V, E>,
    threshold: nat,
)
    requires
        first@ == second@,
    ensures
        same_answer(threshold_answer(first, threshold), threshold_answer(second, threshold)),
{
    lemma_same_outcomes(first, second);
}

/// Under strict equality, two outcomes of different classes anywhere in the
/// set make the answer a disagreement that holds the set as it is.
pub proof fn lemma_two_classes_disagree<K, V: PartialEq, E: PartialEq>(
    results: MultiResults<K, V, E>,
    i: int,
    j: int,
)
    requires
        0 <= i < results@.len(),
        0 <= j < results@.len(),
        !same_class(results.outcomes()[i], results.outcomes()[j]),
    ensures
        equality_answer(results) == Err::<V, ReductionError<K, V, E>>(
            ReductionError::InconsistentResults(results),
        ),
{
}

/// Under strict equality, outcomes that all match the first settle on the
/// first: its value where it is a success, its error where it is a failure.
pub proof fn lemma_agreement_settles<K, V: PartialEq, E: PartialEq>(results: MultiResults<K, V, E>)
    requires
        is_equivalence::<V>(),
        is_equivalence::<E>(),
        results@.len() > 0,
        forall|i: int|
            0 <= i < results@.len() ==> same_class(results.outcomes()[0], #[trigger] results.outcomes()[i]),
    ensures
        equality_answer(results) == match results.outcomes()[0] {
            Ok(value) => Ok::<V, ReductionError<K, V, E>>(value),
            Err(error) => Err(ReductionError::ConsistentError(error)),
        },
{
    crate::multi::proofs::lemma_unanimous_by_first(results.outcomes());
}

/// The class of `x` holds every outcome exactly when every outcome matches
/// `x`.
pub proof fn lemma_full_class<V: PartialEq, E: PartialEq>(outcomes: Seq<Result<V, E>>, x: Result<V, E>)
    ensures
        class_size(outcomes, x) == outcomes.len() <==> forall|j: int|
            0 <= j < outcomes.len() ==> same_class(x, #[trigger] outcomes[j]),
    decreases outcomes.len(),
{
    if outcomes.len() > 0 {
        let shorter = outcomes.drop_last();
        lemma_full_class(shorter, x);
        lemma_class_size_bound(shorter, x);
        if class_size(outcomes, x) == outcomes.len() {
            assert forall|j: int| 0 <= j < outcomes.len() implies same_class(x, #[trigger] outcomes[j]) by {
                if j < shorter.len() {
                    assert(shorter[j] == outcomes[j]);
                }
            }
        }
        if forall|j: int| 0 <= j < outcomes.len() ==> same_class(x, #[trigger] outcomes[j]) {
            assert forall|j: int| 0 <= j < shorter.len() implies same_class(x, #[trigger] shorter[j]) by {
                assert(shorter[j] == outcomes[j]);
            }
            assert(same_class(x, outcomes[outcomes.len() - 1]));
        }
    }
}

/// There is a quorum exactly when some class of successes has `threshold`
/// members or more.
pub proof fn lemma_quorum_is_a_large_class<V: PartialEq, E: PartialEq>(
    outcomes: Seq<Result<V, E>>,
    threshold: nat,
)
    requires
        is_equivalence::<V>(),
        is_equivalence::<E>(),
    ensures
        has_quorum(outcomes, threshold) <==> exists|j: int|
            0 <= j < outcomes.len() && (#[trigger] outcomes[j]) is Ok && class_size(outcomes, outcomes[j])
                >= threshold,
{
    if has_quorum(outcomes, threshold) {
        let i = choose|i: int| #[trigger]
            leads_successes(outcomes, i) && class_size(outcomes, outcomes[i]) >= threshold;
        assert(outcomes[i] is Ok);
    }
    if exists|j: int|
        0 <= j < outcomes.len() && (#[trigger] outcomes[j]) is Ok && class_size(outcomes, outcomes[j])
            >= threshold {
        let j = choose|j: int|
            0 <= j < outcomes.len() && (#[trigger] outcomes[j]) is Ok && class_size(outcomes, outcomes[j])
                >= threshold;
        let lead = lemma_leader_exists(outcomes, j);
        assert(class_size(outcomes, outcomes[j]) <= class_size(outcomes, outcomes[lead]));
    }
}

/// Two different classes share no outcome: together they hold no more outcomes
/// than there are.
pub proof fn lemma_classes_are_disjoint<V: PartialEq, E: PartialEq>(
    outcomes: Seq<Result<V, E>>,
    x: Result<V, E>,
    y: Result<V, E>,
)
    requires
        is_equivalence::<V>(),
        is_equivalence::<E>(),
        !same_class(x, y),
    ensures
        class_size(outcomes, x) + class_size(outcomes, y) <= outcomes.len(),
    decreases outcomes.len(),
{
    if outcomes.len() > 0 {
        lemma_classes_are_disjoint(outcomes.drop_last(), x, y);
        let last = outcomes.last();
        if same_class(x, last) && same_class(y, last) {
            lemma_class_symmetric(y, last);
            lemma_class_transitive(x, last, y);
        }
    }
}

/// Under a threshold of more than half of the providers, the answer does not
/// depend on which class is looked at first: where some value has the asked
/// number of equal successes, the answer is a value of that very class.
pub proof fn lemma_majority_wins<K, V: PartialEq, E: PartialEq>(
    results: MultiResults<K, V, E>,
    threshold: nat,
    j: int,
)
    requires
        is_equivalence::<V>(),
        is_equivalence::<E>(),
        0 <= j < results@.len(),
        results.outcomes()[j] is Ok,
        class_size(results.outcomes(), results.outcomes()[j]) >= threshold,
        2 * threshold > results@.len(),
    ensures
        threshold_answer(results, threshold) matches Ok(value) && same_class(
            Ok::<V, E>(value),
            results.outcomes()[j],
        ),
{
    let outcomes = results.outcomes();
    lemma_quorum_is_a_large_class(outcomes, threshold);
    let lead = quorum_leader(outcomes, threshold);
    assert(leads_successes(outcomes, lead));
    assert(class_size(outcomes, outcomes[j]) <= class_size(outcomes, outcomes[lead]));
    if !same_class(outcomes[lead], outcomes[j]) {
        lemma_classes_are_disjoint(outcomes, outcomes[lead], outcomes[j]);
    }
}

/// Providers that all failed alike settle on their error under every
/// threshold.
pub proof fn lemma_shared_failure_is_trusted<K, V: PartialEq, E: PartialEq>(
    results: MultiResults<K, V, E>,
    threshold: nat,
)
    requires
        results@.len() > 0,
        unanimous(results.outcomes()),
        results.outcomes()[0] is Err,
    ensures
        threshold_answer(results, threshold) == Err::<V, ReductionError<K, V, E>>(
            ReductionError::ConsistentError(results.outcomes()[0]->Err_0),
        ),
{
    let outcomes = results.outcomes();
    assert forall|i: int| !(#[trigger] leads_successes(outcomes, i)) by {
        if 0 <= i < outcomes.len() {
            assert(same_class(outcomes[0], outcomes[i]));
        }
    }
}

/// Providers that all succeeded alike settle on the value of the first of
/// them under every threshold that is not above their number.
pub proof fn lemma_shared_success_is_trusted<K, V: PartialEq, E: PartialEq>(
    results: MultiResults<K, V, E>,
    threshold: nat,
)
    requires
        is_equivalence::<V>(),
        is_equivalence::<E>(),
        0 < results@.len(),
        threshold <= results@.len(),
        unanimous(results.outcomes()),
        results.outcomes()[0] is Ok,
    ensures
        threshold_answer(results, threshold) == Ok::<V, ReductionError<K, V, E>>(
            results.outcomes()[0]->Ok_0,
        ),
{
    let outcomes = results.outcomes();
    lemma_full_class(outcomes, outcomes[0]);
    assert forall|j: int| 0 <= j < outcomes.len() implies same_class(outcomes[0], #[trigger] outcomes[j]) by {}
    assert forall|j: int| 0 <= j < outcomes.len() && (#[trigger] outcomes[j]) is Ok implies class_size(
        outcomes,
        outcomes[j],
    ) <= class_size(outcomes, outcomes[0]) by {
        lemma_class_size_bound(outcomes, outcomes[j]);
    }
    assert(leads_successes(outcomes, 0));
    assert(has_quorum(outcomes, threshold));
    let lead = quorum_leader(outcomes, threshold);
    assert(leads_successes(outcomes, lead));
    if lead != 0 {
        assert(same_class(outcomes[0], outcomes[lead]));
    }
}

/// Strict equality is a quorum of all: it answers what a threshold of the
/// number of providers answers.
pub proof fn lemma_equality_is_a_quorum_of_all<K, V: PartialEq, E: PartialEq>(results: MultiResults<K, V, E>)
    requires
        is_equivalence::<V>(),
        is_equivalence::<E>(),
        results@.len() > 0,
    ensures
        equality_answer(results) == threshold_answer(results, results@.len()),
{
    let outcomes = results.outcomes();
    let all = results@.len();
    if unanimous(outcomes) {
        if outcomes[0] is Ok {
            lemma_shared_success_is_trusted(results, all);
        } else {
            lemma_shared_failure_is_trusted(results, all);
        }
    } else if has_quorum(outcomes, all) {
        let lead = quorum_leader(outcomes, all);
        lemma_class_size_bound(outcomes, outcomes[lead]);
        lemma_full_class(outcomes, outcomes[lead]);
        assert forall|i: int, j: int| 0 <= i < outcomes.len() && 0 <= j < outcomes.len() implies same_class(
            #[trigger] outcomes[i],
            #[trigger] outcomes[j],
        ) by {
            lemma_class_symmetric(outcomes[lead], outcomes[i]);
            lemma_class_transitive(outcomes[i], outcomes[lead], outcomes[j]);
        }
    }
}

/// A threshold above the number of providers is out of reach: where any
/// provider succeeded, the answer is a disagreement that holds the set as it
/// is, however much the providers agree.
pub proof fn lemma_quorum_out_of_reach<K, V: PartialEq, E: PartialEq>(
    results: MultiResults<K, V, E>,
    threshold: nat,
    j: int,
)
    requires
        threshold > results@.len(),
        0 <= j < results@.len(),
        results.outcomes()[j] is Ok,
    ensures
        threshold_answer(results, threshold) == Err::<V, ReductionError<K, V, E>>(
            ReductionError::InconsistentResults(results),
        ),
{
    let outcomes = results.outcomes();
    assert forall|i: int| !(#[trigger] leads_successes(outcomes, i) && class_size(outcomes, outcomes[i])
        >= threshold) by {
        lemma_class_size_bound(outcomes, outcomes[i]);
    }
    if unanimous(outcomes) {
        assert(same_class(outcomes[0], outcomes[j]));
    }
}

} // verus!
