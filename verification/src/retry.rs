//! Orchestrator bookkeeping: what the live path and the retry path do to the
//! persistent queue around each delivery attempt.
//!
//! The delivery itself is a network transfer; these functions take its
//! outcome and keep the queue invariant: a path is queued exactly when its
//! most recent attempt failed.

use vstd::prelude::*;

verus! {

use crate::database::{
    PersistentQueue,
    QueueError,
    count_of,
    lemma_count_of_push,
    lemma_count_of_zero,
    lemma_remove_first_count,
    remove_first,
};

/// Live-path bookkeeping, after one delivery attempt for `path`.
///
/// A delivered screenshot leaves the queue untouched: it never enters it.
/// A failed one is appended, durably, exactly once: afterwards the path is
/// queued once more than before. `Err` is the queue-persistence failure: the
/// failed screenshot could not be saved, nothing changed, and the caller
/// must surface the combined error.
pub fn record_delivery(queue: &mut PersistentQueue, path: &str, delivered: bool) -> (r: Result<
    (),
    QueueError,
>)
    requires
        old(queue).wf(),
    ensures
        final(queue).wf(),
        delivered ==> r is Ok && final(queue).entries() == old(queue).entries(),
        !delivered && r is Ok ==> final(queue).entries() == old(queue).entries().push(path@)
            && count_of(final(queue).entries(), path@) == count_of(old(queue).entries(), path@)
            + 1,
        r is Err ==> !delivered && final(queue).entries() == old(queue).entries(),
{
    if delivered {
        Ok(())
    } else {
        let r = queue.enqueue(path);
        proof {
            if r is Ok {
                lemma_count_of_push(old(queue).entries(), path@, path@);
            }
        }
        r
    }
}

/// The snapshot the retry cycle walks: every queued path, oldest first. An
/// empty queue yields an empty snapshot, so the cycle attempts nothing.
pub fn retry_snapshot(queue: &PersistentQueue) -> (r: Vec<String>)
    requires
        queue.wf(),
    ensures
        r@.map_values(|s: String| s@) == queue.entries(),
        r@.len() == queue.entries().len(),
{
    let r = queue.list();
    proof {
        assert(r@.map_values(|s: String| s@).len() == r@.len());
    }
    r
}

/// Retry-path bookkeeping, after re-attempting one snapshot entry.
///
/// A redelivered entry is removed (its oldest occurrence), durably; a still
/// failing one is left in place for the next cycle. `Ok(true)` reports a
/// removal; `Ok(false)` that nothing matched (another attempt in the same
/// cycle already removed the duplicate); `Err` that the store failed and the
/// queue is unchanged.
pub fn retry_apply(queue: &mut PersistentQueue, path: &str, delivered: bool) -> (r: Result<
    bool,
    QueueError,
>)
    requires
        old(queue).wf(),
    ensures
        final(queue).wf(),
        !delivered ==> r == Result::<bool, QueueError>::Ok(false) && final(queue).entries() == old(
            queue,
        ).entries(),
        (delivered && r matches Ok(true)) ==> (old(queue).entries().contains(path@) && final(queue).entries() == remove_first(old(queue).entries(), path@) && count_of(final(queue).entries(), path@) == count_of(old(queue).entries(), path@) - 1),
        (delivered && r matches Ok(false)) ==> (final(queue).entries() == old(queue).entries() && !old(queue).entries().contains(path@)),
        r is Err ==> final(queue).entries() == old(queue).entries(),
{
    if delivered {
        let r = queue.remove_value(path);
        proof {
            if r matches Ok(true) {
                lemma_remove_first_count(old(queue).entries(), path@);
            }
        }
        r
    } else {
        Ok(false)
    }
}

/// A retry cycle over an empty queue is a no-op: its snapshot (which equals
/// the queue's contents) is empty, so it attempts no delivery and removes
/// nothing.
pub proof fn lemma_empty_cycle_is_noop(entries: Seq<Seq<char>>, snapshot: Seq<Seq<char>>)
    requires
        snapshot == entries,
        entries.len() == 0,
    ensures
        snapshot.len() == 0,
{
}

/// Round trip of a failed screenshot: a path not previously queued that is
/// enqueued after a failed delivery and removed on its successful redelivery
/// in the next cycle is absent from the queue immediately afterwards.
pub proof fn lemma_round_trip_redelivery(before: Seq<Seq<char>>, path: Seq<char>)
    requires
        !before.contains(path),
    ensures
        before.push(path).contains(path),
        !remove_first(before.push(path), path).contains(path),
{
    let queued = before.push(path);
    assert(queued[before.len() as int] == path);
    assert(queued.contains(path));
    lemma_count_of_zero(before, path);
    lemma_count_of_push(before, path, path);
    lemma_remove_first_count(queued, path);
    lemma_count_of_zero(remove_first(queued, path), path);
}

} // verus!
