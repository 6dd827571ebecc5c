//! The watcher half of the shader hotloading pipeline: the debounce policy.
//!
//! A dedicated background thread observes the shader package for filesystem
//! changes. Editors typically touch several files in quick succession, so on
//! each change the watcher waits a short debounce window, drains whatever
//! further notifications arrived in the meantime, and triggers a single
//! rebuild using only the most recent snapshot. The decisions — which
//! snapshot a drain settles on, and how a stream of change moments groups
//! into rebuild triggers — are made here; the thread, the sleep and the
//! filesystem watch itself live with the caller that runs the loop.

use vstd::prelude::*;

verus! {

/// The snapshot a rebuild uses after the debounce window: the last pending
/// notification if any arrived during the window, otherwise the one that
/// opened it. This collapses a burst of filesystem events into one rebuild of
/// the newest source state.
pub fn coalesce_pending<T>(first: T, rest: Vec<T>) -> (latest: T)
    ensures
        rest@.len() == 0 ==> latest == first,
        rest@.len() > 0 ==> latest == rest@.last(),
{
    let mut rest = rest;
    match rest.pop() {
        Some(last) => last,
        None => first,
    }
}

/// The index of the last event of the batch that starts at `j`: successive
/// events are taken as long as they arrive by the batch's deadline.
pub open spec fn batch_end_from(times: Seq<u64>, deadline: int, j: int) -> int
    decreases times.len() - j,
{
    if j + 1 < times.len() && times[j + 1] <= deadline {
        batch_end_from(times, deadline, j + 1)
    } else {
        j
    }
}

/// The end of a batch lies between its start and the end of the stream.
proof fn lemma_batch_end_from_bounds(times: Seq<u64>, deadline: int, j: int)
    requires
        0 <= j < times.len(),
    ensures
        j <= batch_end_from(times, deadline, j) < times.len(),
    decreases times.len() - j,
{
    if j + 1 < times.len() && times[j + 1] <= deadline {
        lemma_batch_end_from_bounds(times, deadline, j + 1);
    }
}

/// The indices of the events whose snapshots the triggered rebuilds use, for
/// the (ascending) arrival moments of change events from index `i` on: each
/// rebuild cycle starts at the first event not yet covered, collects every
/// event arriving within the debounce window of the cycle's start, and
/// triggers one rebuild on the last of them.
pub open spec fn batches_from(times: Seq<u64>, window: u64, i: int) -> Seq<int>
    decreases times.len() - i,
        via batches_from_decreases
{
    if 0 <= i < times.len() {
        let e = batch_end_from(times, times[i] + window, i);
        seq![e] + batches_from(times, window, e + 1)
    } else {
        Seq::empty()
    }
}

#[via_fn]
proof fn batches_from_decreases(times: Seq<u64>, window: u64, i: int) {
    if 0 <= i < times.len() {
        lemma_batch_end_from_bounds(times, times[i] + window, i);
    }
}

/// The rebuild triggers that the debounce policy produces for a stream of
/// change events with the given (ascending) arrival moments: exactly the
/// batch ends of [`batches_from`], one rebuild per burst, each using the
/// state as of the last event of its burst.
pub fn debounce_batches(times: &Vec<u64>, window: u64) -> (triggers: Vec<usize>)
    requires
        forall|a: int, b: int| 0 <= a <= b < times@.len() ==> times@[a] <= times@[b],
    ensures
        triggers@.map_values(|t: usize| t as int) == batches_from(times@, window, 0),
{
    let mut triggers: Vec<usize> = Vec::new();
    let mut i: usize = 0;
    while i < times.len()
        invariant
            i <= times@.len(),
            forall|a: int, b: int| 0 <= a <= b < times@.len() ==> times@[a] <= times@[b],
            triggers@.map_values(|t: usize| t as int) + batches_from(times@, window, i as int)
                == batches_from(times@, window, 0),
        decreases times@.len() - i,
    {
        let ghost deadline = times@[i as int] + window;
        let mut j: usize = i;
        while j < times.len() - 1 && times[j + 1] - times[i] <= window
            invariant
                i <= j < times@.len(),
                forall|a: int, b: int| 0 <= a <= b < times@.len() ==> times@[a] <= times@[b],
                deadline == times@[i as int] + window,
                batch_end_from(times@, deadline, i as int) == batch_end_from(
                    times@,
                    deadline,
                    j as int,
                ),
            decreases times@.len() - j,
        {
            j = j + 1;
        }
        proof {
            assert(batch_end_from(times@, deadline, i as int) == j as int);
        }
        let ghost triggers0 = triggers@;
        triggers.push(j);
        proof {
            assert(triggers@.map_values(|t: usize| t as int) =~= triggers0.map_values(
                |t: usize| t as int,
            ) + seq![j as int]);
            assert(triggers@.map_values(|t: usize| t as int) + batches_from(
                times@,
                window,
                j + 1,
            ) =~= batches_from(times@, window, 0));
        }
        i = j + 1;
    }
    proof {
        assert(batches_from(times@, window, i as int) == Seq::<int>::empty());
        assert(triggers@.map_values(|t: usize| t as int) =~= triggers@.map_values(
            |t: usize| t as int,
        ) + Seq::<int>::empty());
    }
    triggers
}

/// Every event of a batch arriving by the deadline makes the batch run to the
/// end of the stream.
proof fn lemma_batch_end_all_within(times: Seq<u64>, deadline: int, j: int)
    requires
        0 <= j < times.len(),
        forall|x: int| j <= x < times.len() ==> #[trigger] times[x] <= deadline,
    ensures
        batch_end_from(times, deadline, j) == times.len() - 1,
    decreases times.len() - j,
{
    if j + 1 < times.len() && times[j + 1] <= deadline {
        lemma_batch_end_all_within(times, deadline, j + 1);
    }
}

/// Debounce collapsing: when every change event of a burst arrives within the
/// debounce window of the first, exactly one rebuild is triggered, and it
/// uses the state as of the last event — not one rebuild per event.
pub proof fn lemma_debounce_collapses(times: Seq<u64>, window: u64)
    requires
        times.len() > 0,
        forall|j: int| 0 <= j < times.len() ==> #[trigger] times[j] <= times[0] + window,
    ensures
        batches_from(times, window, 0) == seq![times.len() - 1],
{
    lemma_batch_end_all_within(times, times[0] + window, 0);
    assert(batches_from(times, window, times.len() as int) == Seq::<int>::empty());
    assert(seq![times.len() - 1] + Seq::<int>::empty() =~= seq![times.len() - 1]);
}

} // verus!
