//! Tracking of the oldest message timestamp a client has seen, used to ask
//! the server for the next batch of older messages.

use vstd::prelude::*;

verus! {

/// The oldest message timestamp seen so far; `0` means "nothing seen yet".
pub struct OldestMessageTimestamp {
    value: i64,
}

/// The value of the tracker after one update with `ts`: the timestamp is
/// taken when nothing has been recorded yet (`0`) or when it is older.
pub open spec fn spec_updated(current: i64, ts: i64) -> i64 {
    if current == 0 || ts < current {
        ts
    } else {
        current
    }
}

/// The value of the tracker after updating it with every timestamp of
/// `stamps` in order, starting from `start`.
pub open spec fn spec_updated_all(start: i64, stamps: Seq<i64>) -> i64
    decreases stamps.len(),
{
    if stamps.len() == 0 {
        start
    } else {
        spec_updated(spec_updated_all(start, stamps.drop_last()), stamps.last())
    }
}

impl OldestMessageTimestamp {
    /// The recorded timestamp.
    pub closed spec fn spec_value(&self) -> i64 {
        self.value
    }

    /// A tracker that has seen nothing yet.
    pub fn new() -> (tracker: Self)
        ensures
            tracker.spec_value() == 0,
    {
        OldestMessageTimestamp { value: 0 }
    }
}

/// Records `ts`: it becomes the oldest timestamp when nothing was recorded
/// yet or when it is older than the recorded one.
pub fn update_oldest_message_timestamp(tracker: &mut OldestMessageTimestamp, ts: i64)
    ensures
        final(tracker).spec_value() == spec_updated(old(tracker).spec_value(), ts),
{
    let current = tracker.value;
    if current == 0 || ts < current {
        tracker.value = ts;
    }
}

/// The recorded oldest timestamp (`0` when nothing was recorded).
pub fn get_oldest_message_timestamp(tracker: &OldestMessageTimestamp) -> (ts: i64)
    ensures
        ts == tracker.spec_value(),
{
    tracker.value
}

/// Recording the same timestamp twice is the same as recording it once.
pub proof fn lemma_update_idempotent(current: i64, ts: i64)
    ensures
        spec_updated(spec_updated(current, ts), ts) == spec_updated(current, ts),
{
}

/// Once a timestamp is recorded, an update never makes it newer.
pub proof fn lemma_update_never_newer(current: i64, ts: i64)
    requires
        current != 0,
    ensures
        spec_updated(current, ts) <= current,
{
}

/// From a fresh tracker, recording positive timestamps (as real message
/// times are) leaves the oldest of them, or `0` when there were none.
pub proof fn lemma_fresh_tracker_keeps_oldest(stamps: Seq<i64>)
    requires
        forall|i: int| 0 <= i < stamps.len() ==> stamps[i] > 0,
    ensures
        stamps.len() == 0 ==> spec_updated_all(0, stamps) == 0,
        stamps.len() > 0 ==> stamps.contains(spec_updated_all(0, stamps)),
        forall|i: int| 0 <= i < stamps.len() ==> spec_updated_all(0, stamps) <= stamps[i],
    decreases stamps.len(),
{
    if stamps.len() > 0 {
        let prefix = stamps.drop_last();
        lemma_fresh_tracker_keeps_oldest(prefix);
        let before = spec_updated_all(0, prefix);
        let after = spec_updated_all(0, stamps);
        if prefix.len() > 0 {
            let j = choose|j: int| 0 <= j < prefix.len() && prefix[j] == before;
            assert(stamps[j] == before);
        }
        if after == stamps.last() {
            assert(stamps[stamps.len() - 1] == after);
        }
        assert forall|i: int| 0 <= i < stamps.len() implies after <= stamps[i] by {
            if i < stamps.len() - 1 {
                assert(prefix[i] == stamps[i]);
            }
        }
    }
}

} // verus!
