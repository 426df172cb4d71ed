//! Counting what a sequence of calls takes from the driver and gives back.

use crate::driver::CallView;
use vstd::prelude::*;

verus! {

/// How many of `calls` ask the driver to allocate an object.
pub open spec fn creations(calls: Seq<CallView>) -> nat
    decreases calls.len(),
{
    if calls.len() == 0 {
        0
    } else {
        creations(calls.drop_last()) + if calls.last().creates() {
            1nat
        } else {
            0nat
        }
    }
}

/// How many of `calls` hand an object back to the driver.
pub open spec fn deletions(calls: Seq<CallView>) -> nat
    decreases calls.len(),
{
    if calls.len() == 0 {
        0
    } else {
        deletions(calls.drop_last()) + if calls.last().deletes() {
            1nat
        } else {
            0nat
        }
    }
}

/// One more call adds to the count that it belongs to, and to no other.
pub proof fn count_push(calls: Seq<CallView>, call: CallView)
    ensures
        creations(calls.push(call)) == creations(calls) + if call.creates() {
            1nat
        } else {
            0nat
        },
        deletions(calls.push(call)) == deletions(calls) + if call.deletes() {
            1nat
        } else {
            0nat
        },
{
    assert(calls.push(call).drop_last() =~= calls);
}

/// The counts of a run, unfolded over its first `upto` calls.
pub proof fn count_prefixes(calls: Seq<CallView>, upto: int)
    requires
        0 <= upto <= calls.len(),
    ensures
        forall|n: int|
            0 < n <= upto ==> creations(#[trigger] calls.take(n)) == creations(calls.take(n - 1))
                + if calls[n - 1].creates() {
                1nat
            } else {
                0nat
            },
        forall|n: int|
            0 < n <= upto ==> deletions(#[trigger] calls.take(n)) == deletions(calls.take(n - 1))
                + if calls[n - 1].deletes() {
                1nat
            } else {
                0nat
            },
        creations(calls.take(0)) == 0,
        deletions(calls.take(0)) == 0,
{
    assert forall|n: int| 0 < n <= upto implies creations(#[trigger] calls.take(n)) == creations(
        calls.take(n - 1),
    ) + if calls[n - 1].creates() {
        1nat
    } else {
        0nat
    } by {
        assert(calls.take(n).drop_last() =~= calls.take(n - 1));
    }
    assert forall|n: int| 0 < n <= upto implies deletions(#[trigger] calls.take(n)) == deletions(
        calls.take(n - 1),
    ) + if calls[n - 1].deletes() {
        1nat
    } else {
        0nat
    } by {
        assert(calls.take(n).drop_last() =~= calls.take(n - 1));
    }
}

/// Calls that neither create nor delete count for nothing, and a run of
/// calls that all delete counts once for each.
pub proof fn count_uniform(calls: Seq<CallView>)
    ensures
        (forall|i: int| 0 <= i < calls.len() ==> !calls[i].creates()) ==> creations(calls) == 0,
        (forall|i: int| 0 <= i < calls.len() ==> !calls[i].deletes()) ==> deletions(calls) == 0,
        (forall|i: int| 0 <= i < calls.len() ==> calls[i].deletes()) ==> deletions(calls)
            == calls.len(),
    decreases calls.len(),
{
    if calls.len() > 0 {
        let front = calls.drop_last();
        count_uniform(front);
        assert forall|i: int| 0 <= i < front.len() implies front[i] == calls[i] by {}
        if forall|i: int| 0 <= i < calls.len() ==> !calls[i].creates() {
            assert(forall|i: int| 0 <= i < front.len() ==> !front[i].creates());
        }
        if forall|i: int| 0 <= i < calls.len() ==> !calls[i].deletes() {
            assert(forall|i: int| 0 <= i < front.len() ==> !front[i].deletes());
        }
        if forall|i: int| 0 <= i < calls.len() ==> calls[i].deletes() {
            assert(forall|i: int| 0 <= i < front.len() ==> front[i].deletes());
        }
    }
}

/// The counts of two runs made one after the other are the sums of their
/// counts.
pub proof fn count_concat(first: Seq<CallView>, second: Seq<CallView>)
    ensures
        creations(first + second) == creations(first) + creations(second),
        deletions(first + second) == deletions(first) + deletions(second),
    decreases second.len(),
{
    if second.len() == 0 {
        assert(first + second =~= first);
    } else {
        count_concat(first, second.drop_last());
        assert((first + second).drop_last() =~= first + second.drop_last());
    }
}

} // verus!
