//! Gathering the outcomes of calls that were started together and complete in
//! any order.

use vstd::prelude::*;
use vstd::std_specs::cmp::PartialEqSpec;
use crate::multi::model::distinct_keys;
use crate::multi::results::MultiResults;

verus! {

/// The state of a fan-out: for each call the key of its provider and, once the
/// call has completed, its outcome.
pub type Progress<K, V, E> = Seq<(K, Option<Result<V, E>>)>;

/// `progress` after the call at `place` completed with `outcome`.
pub open spec fn completed<K, V, E>(progress: Progress<K, V, E>, place: int, outcome: Result<V, E>) -> Progress<
    K,
    V,
    E,
> {
    progress.update(place, (progress[place].0, Some(outcome)))
}

/// Every call has completed.
pub open spec fn all_completed<K, V, E>(progress: Progress<K, V, E>) -> bool {
    forall|i: int| 0 <= i < progress.len() ==> (#[trigger] progress[i]).1 is Some
}

/// The calls of a fan-out that were started together, with the outcomes of
/// those that have completed. The calls keep the order in which they were
/// started, whenever each of them completes.
pub struct PendingResults<K, V, E> {
    calls: Vec<(K, Option<Result<V, E>>)>,
}

impl<K, V, E> View for PendingResults<K, V, E> {
    type V = Progress<K, V, E>;

    closed spec fn view(&self) -> Progress<K, V, E> {
        self.calls@
    }
}

impl<K: PartialEq, V, E> PendingResults<K, V, E> {
    /// No provider is called twice.
    pub open spec fn wf(&self) -> bool {
        distinct_keys(self@)
    }

    /// Starts a fan-out: gives the requests to send, in their order, and the
    /// calls to wait for, none of which has completed. No two requests may
    /// have the same key.
    pub fn start<R>(requests: Vec<(K, R)>) -> (started: (Self, Vec<R>))
        requires
            distinct_keys(requests@),
        ensures
            started.0.wf(),
            started.0@.len() == requests@.len(),
            started.1@.len() == requests@.len(),
            forall|i: int|
                0 <= i < requests@.len() ==> (#[trigger] started.0@[i]) == (requests@[i].0, None::<Result<V, E>>)
                    && started.1@[i] == requests@[i].1,
    {
        let ghost asked = requests@;
        let mut calls: Vec<(K, Option<Result<V, E>>)> = Vec::new();
        let mut to_send: Vec<R> = Vec::new();
        for pair in it: requests
            invariant
                asked == it.seq(),
                calls@.len() == it.index(),
                to_send@.len() == it.index(),
                forall|i: int|
                    0 <= i < calls@.len() ==> (#[trigger] calls@[i]) == (asked[i].0, None::<Result<V, E>>)
                        && to_send@[i] == asked[i].1,
        {
            let (key, request) = pair;
            calls.push((key, None));
            to_send.push(request);
        }
        assert(distinct_keys(calls@)) by {
            assert forall|i: int, j: int| 0 <= i < j < calls@.len() implies !(#[trigger] calls@[i]).0.eq_spec(
                &(#[trigger] calls@[j]).0,
            ) by {
                assert(!asked[i].0.eq_spec(&asked[j].0));
            }
        }
        (PendingResults { calls }, to_send)
    }

    /// The number of calls, completed or not.
    pub fn len(&self) -> (n: usize)
        ensures
            n == self@.len(),
    {
        self.calls.len()
    }

    /// Whether the call at `place` is still awaited: there is such a call and
    /// it has not completed.
    pub fn is_awaited(&self, place: usize) -> (awaited: bool)
        ensures
            awaited == (place < self@.len() && self@[place as int].1 is None),
    {
        place < self.calls.len() && self.calls[place].1.is_none()
    }

    /// Records that the call at `place`, which is still awaited, completed
    /// with `outcome`. Nothing else changes.
    pub fn record(&mut self, place: usize, outcome: Result<V, E>)
        requires
            old(self).wf(),
            place < old(self)@.len(),
            old(self)@[place as int].1 is None,
        ensures
            final(self).wf(),
            final(self)@ == completed(old(self)@, place as int, outcome),
    {
        let ghost before = self.calls@;
        let (key, _) = self.calls.swap_remove(place);
        self.calls.push((key, Some(outcome)));
        if place < self.calls.len() - 1 {
            let moved = self.calls.swap_remove(place);
            self.calls.push(moved);
        }
        assert(self.calls@ =~= completed(before, place as int, outcome));
        assert(distinct_keys(self.calls@)) by {
            assert forall|i: int, j: int| 0 <= i < j < self.calls@.len() implies !(
            #[trigger] self.calls@[i]).0.eq_spec(&(#[trigger] self.calls@[j]).0) by {
                assert(!before[i].0.eq_spec(&before[j].0));
            }
        }
    }

    /// Whether every call has completed.
    pub fn is_complete(&self) -> (complete: bool)
        ensures
            complete == all_completed(self@),
    {
        let mut i: usize = 0;
        while i < self.calls.len()
            invariant
                i <= self.calls@.len(),
                forall|j: int| 0 <= j < i ==> (#[trigger] self.calls@[j]).1 is Some,
            decreases self.calls.len() - i,
        {
            if self.calls[i].1.is_none() {
                return false;
            }
            i += 1;
        }
        true
    }

    /// The result set of a fan-out whose every call has completed: one entry
    /// for each call, in the order in which the calls were started, with the
    /// key of the call and the outcome it completed with.
    pub fn finish(self) -> (results: MultiResults<K, V, E>)
        requires
            self.wf(),
            all_completed(self@),
        ensures
            results.wf(),
            results@.len() == self@.len(),
            forall|i: int|
                0 <= i < self@.len() ==> (#[trigger] results@[i]) == (self@[i].0, self@[i].1->Some_0),
    {
        let ghost calls = self.calls@;
        let mut entries: Vec<(K, Result<V, E>)> = Vec::new();
        for call in it: self.calls
            invariant
                calls == it.seq(),
                all_completed(calls),
                entries@.len() == it.index(),
                forall|i: int|
                    0 <= i < entries@.len() ==> (#[trigger] entries@[i]) == (calls[i].0, calls[i].1->Some_0),
        {
            let (key, outcome) = call;
            match outcome {
                Some(outcome) => entries.push((key, outcome)),
                None => {
                    assert(calls[it.index() as int].1 is Some);
                },
            }
        }
        assert(distinct_keys(entries@)) by {
            assert forall|i: int, j: int| 0 <= i < j < entries@.len() implies !(
            #[trigger] entries@[i]).0.eq_spec(&(#[trigger] entries@[j]).0) by {
                assert(!calls[i].0.eq_spec(&calls[j].0));
            }
        }
        MultiResults::collect(entries)
    }
}

} // verus!
