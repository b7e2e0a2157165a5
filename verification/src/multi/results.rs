//! The result set: what each provider answered, in the order in which the
//! providers were given.

use vstd::prelude::*;
use vstd::std_specs::cmp::{PartialEqSpec, PartialEqSpecImpl};
use crate::multi::model::{distinct_keys, first_repeated_key, lookup, same_class, same_entries};

verus! {

/// What each provider answered, keyed by the provider and kept in the order in
/// which the providers were given.
///
/// The view is the sequence of `(key, outcome)` entries. A set that is
/// [well formed](MultiResults::wf) names no provider twice; every constructor
/// gives a well-formed set and nothing changes a set once it is built.
#[derive(Clone, Debug, Eq)]
pub struct MultiResults<K, V, E> {
    entries: Vec<(K, Result<V, E>)>,
}

impl<K: PartialEq, V: PartialEq, E: PartialEq> PartialEq for MultiResults<K, V, E> {
    /// Two result sets are equal if and only if they hold equal entries in the
    /// same order.
    fn eq(&self, other: &MultiResults<K, V, E>) -> (equal: bool) {
        if self.entries.len() != other.entries.len() {
            return false;
        }
        let mut i: usize = 0;
        while i < self.entries.len()
            invariant
                self.entries@.len() == other.entries@.len(),
                i <= self.entries@.len(),
                K::obeys_eq_spec() && V::obeys_eq_spec() && E::obeys_eq_spec() ==> forall|j: int|
                    0 <= j < i ==> (#[trigger] self.entries@[j]).0.eq_spec(&other.entries@[j].0) && same_class(
                        self.entries@[j].1,
                        other.entries@[j].1,
                    ),
            decreases self.entries.len() - i,
        {
            if self.entries[i].0 != other.entries[i].0 {
                return false;
            }
            let same = match (&self.entries[i].1, &other.entries[i].1) {
                (Ok(x), Ok(y)) => *x == *y,
                (Err(x), Err(y)) => *x == *y,
                _ => false,
            };
            if !same {
                return false;
            }
            i += 1;
        }
        true
    }
}

impl<K: PartialEq, V: PartialEq, E: PartialEq> PartialEqSpecImpl for MultiResults<K, V, E> {
    open spec fn obeys_eq_spec() -> bool {
        K::obeys_eq_spec() && V::obeys_eq_spec() && E::obeys_eq_spec()
    }

    open spec fn eq_spec(&self, other: &MultiResults<K, V, E>) -> bool {
        same_entries(self@, other@)
    }
}

/// Why a list of entries is no result set.
#[derive(Clone, Copy, Debug, PartialEq, Eq)]
pub enum InvalidResults {
    /// There is no entry at all.
    Empty,
    /// The entry at `second` has the same key as the entry at `first`.
    DuplicateKey { first: usize, second: usize },
}

/// Whether no two entries of `entries` have equal keys.
pub fn has_distinct_keys<K: PartialEq, O>(entries: &Vec<(K, O)>) -> (distinct: bool)
    requires
        K::obeys_eq_spec(),
    ensures
        distinct == distinct_keys(entries@),
{
    match first_repetition(entries) {
        Some(_) => false,
        None => true,
    }
}

/// The places of the first repeated key of `entries` and of the entry that
/// it repeats, if a key is repeated.
pub fn first_repetition<K: PartialEq, O>(entries: &Vec<(K, O)>) -> (repetition: Option<(usize, usize)>)
    requires
        K::obeys_eq_spec(),
    ensures
        repetition is None <==> distinct_keys(entries@),
        repetition matches Some(places) ==> first_repeated_key(entries@, places.0 as int, places.1 as int),
{
    if entries.len() == 0 {
        return None;
    }
    let mut second: usize = 1;
    while second < entries.len()
        invariant
            K::obeys_eq_spec(),
            1 <= second <= entries.len(),
            distinct_keys(entries@.take(second as int)),
        decreases entries.len() - second,
    {
        let mut first: usize = 0;
        while first < second
            invariant
                K::obeys_eq_spec(),
                first <= second < entries.len(),
                distinct_keys(entries@.take(second as int)),
                forall|i: int| 0 <= i < first ==> !(#[trigger] entries@[i]).0.eq_spec(&entries@[second as int].0),
            decreases second - first,
        {
            if entries[first].0 == entries[second].0 {
                return Some((first, second));
            }
            first += 1;
        }
        assert(distinct_keys(entries@.take(second + 1))) by {
            let longer = entries@.take(second + 1);
            let shorter = entries@.take(second as int);
            assert forall|i: int, j: int| 0 <= i < j < longer.len() implies !(#[trigger] longer[i]).0.eq_spec(
                &(#[trigger] longer[j]).0,
            ) by {
                if j < second {
                    assert(shorter[i] == longer[i] && shorter[j] == longer[j]);
                }
            }
        }
        second += 1;
    }
    assert(entries@.take(entries@.len() as int) == entries@);
    None
}

impl<K, V, E> View for MultiResults<K, V, E> {
    type V = Seq<(K, Result<V, E>)>;

    closed spec fn view(&self) -> Seq<(K, Result<V, E>)> {
        self.entries@
    }
}

impl<K, V, E> Default for MultiResults<K, V, E> {
    /// The set in which no provider has answered.
    fn default() -> (results: Self)
        ensures
            results@ == Seq::<(K, Result<V, E>)>::empty(),
    {
        MultiResults { entries: Vec::new() }
    }
}

impl<K, V, E> MultiResults<K, V, E> {
    /// The outcomes alone, in the order of the entries.
    pub open spec fn outcomes(&self) -> Seq<Result<V, E>> {
        self@.map_values(|entry: (K, Result<V, E>)| entry.1)
    }

    /// The number of providers that answered.
    pub fn len(&self) -> (n: usize)
        ensures
            n == self@.len(),
    {
        self.entries.len()
    }

    /// Whether no provider answered.
    pub fn is_empty(&self) -> (empty: bool)
        ensures
            empty == (self@.len() == 0),
    {
        self.entries.len() == 0
    }

    /// The provider of the entry at `index`.
    pub fn key(&self, index: usize) -> (key: &K)
        requires
            index < self@.len(),
        ensures
            *key == self@[index as int].0,
    {
        &self.entries[index].0
    }

    /// The outcome of the entry at `index`.
    pub fn outcome(&self, index: usize) -> (outcome: &Result<V, E>)
        requires
            index < self@.len(),
        ensures
            *outcome == self@[index as int].1,
            *outcome == self.outcomes()[index as int],
    {
        &self.entries[index].1
    }

    /// The entries, in the order in which the providers were given.
    pub fn into_vec(self) -> (entries: Vec<(K, Result<V, E>)>)
        ensures
            entries@ == self@,
    {
        self.entries
    }
}

impl<K: PartialEq, V, E> MultiResults<K, V, E> {
    /// No provider is named twice.
    pub open spec fn wf(&self) -> bool {
        distinct_keys(self@)
    }

    /// The result set that holds `pairs`, which may be empty.
    pub(crate) fn collect(pairs: Vec<(K, Result<V, E>)>) -> (results: Self)
        requires
            distinct_keys(pairs@),
        ensures
            results@ == pairs@,
            results.wf(),
    {
        MultiResults { entries: pairs }
    }

    /// The result set that holds `pairs`, entry for entry and in their order.
    ///
    /// The list must hold at least one entry and name no provider twice;
    /// [`MultiResults::try_from_non_empty_iter`] tests both.
    pub fn from_non_empty_iter(pairs: Vec<(K, Result<V, E>)>) -> (results: Self)
        requires
            pairs@.len() > 0,
            distinct_keys(pairs@),
        ensures
            results@ == pairs@,
            results.wf(),
    {
        MultiResults { entries: pairs }
    }

    /// The result set that holds `pairs`, entry for entry and in their order,
    /// unless the list is empty or names a provider twice. An outcome is never
    /// dropped or overwritten: a repeated key is reported, with the place of
    /// its first repetition.
    pub fn try_from_non_empty_iter(pairs: Vec<(K, Result<V, E>)>) -> (built: Result<Self, InvalidResults>)
        requires
            K::obeys_eq_spec(),
        ensures
            built is Ok <==> pairs@.len() > 0 && distinct_keys(pairs@),
            built matches Ok(results) ==> results@ == pairs@ && results.wf(),
            built == Err::<Self, InvalidResults>(InvalidResults::Empty) <==> pairs@.len() == 0,
            built matches Err(InvalidResults::DuplicateKey { first, second }) ==> first_repeated_key(
                pairs@,
                first as int,
                second as int,
            ),
    {
        if pairs.len() == 0 {
            return Err(InvalidResults::Empty);
        }
        match first_repetition(&pairs) {
            Some((first, second)) => Err(InvalidResults::DuplicateKey { first, second }),
            None => Ok(MultiResults { entries: pairs }),
        }
    }

    /// What the provider `key` answered, if it is among the providers.
    pub fn get(&self, key: &K) -> (answer: Option<&Result<V, E>>)
        requires
            K::obeys_eq_spec(),
        ensures
            answer == match lookup(self@, *key) {
                Some(outcome) => Some(&outcome),
                None => None,
            },
    {
        let mut i: usize = 0;
        assert(self.entries@.skip(0) == self.entries@);
        while i < self.entries.len()
            invariant
                K::obeys_eq_spec(),
                i <= self.entries@.len(),
                lookup(self.entries@, *key) == lookup(self.entries@.skip(i as int), *key),
            decreases self.entries.len() - i,
        {
            proof {
                let rest = self.entries@.skip(i as int);
                assert(rest[0] == self.entries@[i as int]);
                assert(rest.drop_first() == self.entries@.skip(i + 1));
            }
            if self.entries[i].0 == *key {
                return Some(&self.entries[i].1);
            }
            i += 1;
        }
        None
    }
}

} // verus!
