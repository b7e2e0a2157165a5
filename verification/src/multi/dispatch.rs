//! Putting one operation to every provider and gathering what each answers.

use vstd::prelude::*;
use vstd::std_specs::cmp::PartialEqSpec;
use crate::multi::model::distinct_keys;
use crate::multi::results::MultiResults;

verus! {

/// Calls `operation` once for every request, in the order of `requests`, and
/// gathers the outcomes: entry `i` of the result set has the key of request `i`
/// and what `operation` answered to it, be it a success or a failure. No call
/// is left out, repeated or answered for by another.
///
/// No two requests may have the same key.
pub fn parallel_call<K: PartialEq, R, V, E, F: Fn(R) -> Result<V, E>>(
    operation: F,
    requests: Vec<(K, R)>,
) -> (results: MultiResults<K, V, E>)
    requires
        distinct_keys(requests@),
        forall|i: int| 0 <= i < requests@.len() ==> call_requires(operation, ((#[trigger] requests@[i]).1,)),
    ensures
        results.wf(),
        results@.len() == requests@.len(),
        forall|i: int|
            0 <= i < requests@.len() ==> (#[trigger] results@[i]).0 == requests@[i].0 && call_ensures(
                operation,
                (requests@[i].1,),
                results@[i].1,
            ),
{
    let ghost asked = requests@;
    let mut entries: Vec<(K, Result<V, E>)> = Vec::new();
    for pair in it: requests
        invariant
            asked == it.seq(),
            forall|i: int| 0 <= i < asked.len() ==> call_requires(operation, ((#[trigger] asked[i]).1,)),
            entries@.len() == it.index(),
            forall|i: int|
                0 <= i < entries@.len() ==> (#[trigger] entries@[i]).0 == asked[i].0 && call_ensures(
                    operation,
                    (asked[i].1,),
                    entries@[i].1,
                ),
    {
        let (key, request) = pair;
        let outcome = operation(request);
        entries.push((key, outcome));
    }
    assert(distinct_keys(entries@)) by {
        assert forall|i: int, j: int| 0 <= i < j < entries@.len() implies !(#[trigger] entries@[i]).0.eq_spec(
            &(#[trigger] entries@[j]).0,
        ) by {
            assert(!asked[i].0.eq_spec(&asked[j].0));
        }
    }
    MultiResults::collect(entries)
}

} // verus!
