//! Settling a result set: the policies and what they answer.

use vstd::prelude::*;
use vstd::std_specs::cmp::PartialEqSpec;
use crate::multi::model::{
    class_size, is_equivalence, is_partition, leads_successes, same_class, same_outcome, unanimous,
};
use crate::multi::proofs::{
    lemma_failures_only, lemma_leader_of_partition, lemma_leader_unique, lemma_one_class_is_unanimous,
    lemma_unanimous_by_first,
};
use crate::multi::results::MultiResults;

verus! {

/// Why a policy could not settle on an answer.
#[derive(Clone, Debug, PartialEq, Eq)]
pub enum ReductionError<K, V, E> {
    /// Every provider failed and all failures are equal: the error they share.
    ConsistentError(E),
    /// The providers disagree in a way the policy cannot resolve: the whole
    /// result set, as it was handed in.
    InconsistentResults(MultiResults<K, V, E>),
}

/// What a policy answers: the trusted value, or why there is none.
pub type ReducedResult<K, V, E> = Result<V, ReductionError<K, V, E>>;

/// What strict equality answers: the first outcome where all outcomes are of
/// one class, and the whole set as a disagreement otherwise.
pub open spec fn equality_answer<K, V: PartialEq, E: PartialEq>(
    results: MultiResults<K, V, E>,
) -> ReducedResult<K, V, E> {
    let outcomes = results.outcomes();
    if unanimous(outcomes) {
        match outcomes[0] {
            Ok(value) => Ok(value),
            Err(error) => Err(ReductionError::ConsistentError(error)),
        }
    } else {
        Err(ReductionError::InconsistentResults(results))
    }
}

/// The largest class of successes has at least `threshold` members.
pub open spec fn has_quorum<V: PartialEq, E: PartialEq>(outcomes: Seq<Result<V, E>>, threshold: nat) -> bool {
    exists|i: int| #[trigger] leads_successes(outcomes, i) && class_size(outcomes, outcomes[i]) >= threshold
}

/// The place of the outcome that opens the largest class of successes, where
/// that class has at least `threshold` members.
pub open spec fn quorum_leader<V: PartialEq, E: PartialEq>(outcomes: Seq<Result<V, E>>, threshold: nat) -> int {
    choose|i: int| #[trigger] leads_successes(outcomes, i) && class_size(outcomes, outcomes[i]) >= threshold
}

/// What a quorum of `threshold` answers: the value of the largest class of
/// successes where that class has `threshold` members or more; else the shared
/// error where every provider failed alike; else the whole set as a
/// disagreement.
pub open spec fn threshold_answer<K, V: PartialEq, E: PartialEq>(
    results: MultiResults<K, V, E>,
    threshold: nat,
) -> ReducedResult<K, V, E> {
    let outcomes = results.outcomes();
    if has_quorum(outcomes, threshold) {
        Ok(outcomes[quorum_leader(outcomes, threshold)]->Ok_0)
    } else if unanimous(outcomes) && outcomes[0] is Err {
        Err(ReductionError::ConsistentError(outcomes[0]->Err_0))
    } else {
        Err(ReductionError::InconsistentResults(results))
    }
}

/// A policy that settles a result set on one trusted value, or says why it
/// cannot.
pub trait Reduce<K, V: PartialEq, E: PartialEq> {
    /// What the policy answers for `results`.
    spec fn answer(&self, results: MultiResults<K, V, E>) -> ReducedResult<K, V, E>;

    /// Settles `results`, which must hold at least one entry.
    fn reduce(&self, results: MultiResults<K, V, E>) -> (reduced: ReducedResult<K, V, E>)
        requires
            results@.len() > 0,
            is_equivalence::<V>(),
            is_equivalence::<E>(),
        ensures
            reduced == self.answer(results),
    ;
}

/// Trusts an answer only where every provider gave it.
#[derive(Clone, Copy, Debug, PartialEq, Eq)]
pub struct ReduceWithEquality;

/// Trusts a value that enough providers agree on, and a failure only where
/// every provider failed alike.
#[derive(Clone, Copy, Debug, PartialEq, Eq)]
pub struct ReduceWithThreshold(u8);

impl<K, V: PartialEq, E: PartialEq> Reduce<K, V, E> for ReduceWithEquality {
    open spec fn answer(&self, results: MultiResults<K, V, E>) -> ReducedResult<K, V, E> {
        equality_answer(results)
    }

    /// The value where all providers succeeded with equal values, the error
    /// where all failed with equal errors, and otherwise the result set as it
    /// was handed in.
    fn reduce(&self, results: MultiResults<K, V, E>) -> (reduced: ReducedResult<K, V, E>)
        ensures
            unanimous(results.outcomes()) ==> match results.outcomes()[0] {
                Ok(value) => reduced == Ok::<V, ReductionError<K, V, E>>(value),
                Err(error) => reduced == Err::<V, ReductionError<K, V, E>>(
                    ReductionError::ConsistentError(error),
                ),
            },
            !unanimous(results.outcomes()) ==> reduced == Err::<V, ReductionError<K, V, E>>(
                ReductionError::InconsistentResults(results),
            ),
    {
        let ghost outcomes = results.outcomes();
        let count = results.len();
        let mut i: usize = 1;
        proof {
            lemma_unanimous_by_first(outcomes);
            assert(same_class(outcomes[0], outcomes[0]));
        }
        while i < count
            invariant
                is_equivalence::<V>(),
                is_equivalence::<E>(),
                outcomes == results.outcomes(),
                count == results@.len(),
                1 <= i <= count,
                forall|j: int| 0 <= j < i ==> same_class(outcomes[0], #[trigger] outcomes[j]),
            decreases count - i,
        {
            if !same_outcome(results.outcome(0), results.outcome(i)) {
                proof {
                    lemma_unanimous_by_first(outcomes);
                }
                return Err(ReductionError::InconsistentResults(results));
            }
            i += 1;
        }
        let mut entries = results.into_vec();
        let (_, first) = entries.swap_remove(0);
        match first {
            Ok(value) => Ok(value),
            Err(error) => Err(ReductionError::ConsistentError(error)),
        }
    }
}

impl ReduceWithThreshold {
    /// The policy that asks for `threshold` equal successes.
    pub fn new(threshold: u8) -> (policy: Self)
        ensures
            policy.threshold() == threshold,
    {
        ReduceWithThreshold(threshold)
    }

    /// The number of equal successes that the policy asks for.
    pub closed spec fn threshold(&self) -> u8 {
        self.0
    }
}

impl<K, V: PartialEq, E: PartialEq> Reduce<K, V, E> for ReduceWithThreshold {
    open spec fn answer(&self, results: MultiResults<K, V, E>) -> ReducedResult<K, V, E> {
        threshold_answer(results, self.threshold() as nat)
    }

    /// The value of the largest class of successes where it has the asked
    /// number of members; failing that, the error where all providers failed
    /// with equal errors; and otherwise the result set as it was handed in.
    fn reduce(&self, results: MultiResults<K, V, E>) -> (reduced: ReducedResult<K, V, E>)
        ensures
            match reduced {
                Ok(value) => exists|i: int|
                    {
                        &&& #[trigger] leads_successes(results.outcomes(), i)
                        &&& class_size(results.outcomes(), results.outcomes()[i]) >= self.threshold()
                        &&& results.outcomes()[i] == Ok::<V, E>(value)
                    },
                Err(ReductionError::ConsistentError(error)) => {
                    &&& !has_quorum(results.outcomes(), self.threshold() as nat)
                    &&& unanimous(results.outcomes())
                    &&& results.outcomes()[0] == Err::<V, E>(error)
                },
                Err(ReductionError::InconsistentResults(rejected)) => {
                    &&& !has_quorum(results.outcomes(), self.threshold() as nat)
                    &&& !(unanimous(results.outcomes()) && results.outcomes()[0] is Err)
                    &&& rejected == results
                },
            },
    {
        let ghost outcomes = results.outcomes();
        let ghost threshold = self.threshold() as nat;
        let classes = results.classes();
        let mut best: usize = 0;
        let mut found = false;
        let mut k: usize = 0;
        while k < classes.len()
            invariant
                outcomes == results.outcomes(),
                is_partition(outcomes, classes@),
                k <= classes.len(),
                found ==> best < k && outcomes[classes[best as int].first as int] is Ok,
                found ==> forall|l: int|
                    0 <= l < k && outcomes[(#[trigger] classes[l]).first as int] is Ok ==> classes[l].size
                        <= classes[best as int].size,
                found ==> forall|l: int|
                    0 <= l < best && outcomes[(#[trigger] classes[l]).first as int] is Ok ==> classes[l].size
                        < classes[best as int].size,
                !found ==> forall|l: int| 0 <= l < k ==> outcomes[(#[trigger] classes[l]).first as int] is Err,
            decreases classes.len() - k,
        {
            if results.outcome(classes[k].first).is_ok() {
                if !found || classes[k].size > classes[best].size {
                    best = k;
                    found = true;
                }
            }
            k += 1;
        }
        proof {
            if found {
                lemma_leader_of_partition(outcomes, classes@, best as int);
            } else {
                lemma_failures_only(outcomes, classes@);
                assert forall|i: int| !leads_successes(outcomes, i) by {
                    if 0 <= i < outcomes.len() {
                        assert(outcomes[i] is Err);
                    }
                }
            }
            lemma_one_class_is_unanimous(outcomes, classes@);
        }
        if found && classes[best].size >= self.0 as usize {
            let lead = classes[best].first;
            proof {
                assert(has_quorum(outcomes, threshold));
                lemma_leader_unique(outcomes, lead as int, quorum_leader(outcomes, threshold));
            }
            let mut entries = results.into_vec();
            let (_, outcome) = entries.swap_remove(lead);
            match outcome {
                Ok(value) => Ok(value),
                Err(_) => vstd::pervasive::unreached(),
            }
        } else {
            proof {
                if has_quorum(outcomes, threshold) {
                    let i = quorum_leader(outcomes, threshold);
                    lemma_leader_unique(outcomes, i, classes[best as int].first as int);
                }
            }
            if classes.len() == 1 && results.outcome(0).is_err() {
                let mut entries = results.into_vec();
                let (_, outcome) = entries.swap_remove(0);
                match outcome {
                    Ok(_) => vstd::pervasive::unreached(),
                    Err(error) => Err(ReductionError::ConsistentError(error)),
                }
            } else {
                Err(ReductionError::InconsistentResults(results))
            }
        }
    }
}

impl<K, V: PartialEq, E: PartialEq> MultiResults<K, V, E> {
    /// Settles the result set, which must hold at least one entry, by the
    /// policy `reducer`.
    pub fn reduce<R: Reduce<K, V, E>>(self, reducer: R) -> (reduced: ReducedResult<K, V, E>)
        requires
            self@.len() > 0,
            is_equivalence::<V>(),
            is_equivalence::<E>(),
        ensures
            reduced == reducer.answer(self),
    {
        reducer.reduce(self)
    }
}

} // verus!
