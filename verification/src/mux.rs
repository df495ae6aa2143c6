//! Decisions of the event multiplexer.
//!
//! The multiplexer blocks on every registered device at once and must pick a
//! single device to drain.  The choice is deterministic: watchers are scanned
//! in registration order and the first ready one wins.  A drained batch is
//! returned only when it is non-empty; a spurious wake (an empty drain) asks
//! the caller to wait again.

use vstd::prelude::*;
use crate::events::{InputEvent, RawEvent, tag_events, tagged_batch, tagged_event};

verus! {

/// `i` is the index the multiplexer must select: the first watcher, in
/// registration order, that reported readiness.
pub open spec fn is_first_ready(ready: Seq<bool>, i: int) -> bool {
    &&& 0 <= i < ready.len()
    &&& ready[i]
    &&& forall|j: int| 0 <= j < i ==> !ready[j]
}

/// Select the device to drain from one readiness scan: the lowest ready
/// index, or `None` when no watcher is ready and the wait must continue.
pub fn mux_select(ready: &Vec<bool>) -> (r: Option<usize>)
    ensures
        match r {
            Some(i) => is_first_ready(ready@, i as int),
            None => forall|j: int| 0 <= j < ready@.len() ==> !ready@[j],
        },
{
    let n = ready.len();
    for i in 0..n
        invariant
            n == ready@.len(),
            forall|j: int| 0 <= j < i ==> !ready@[j],
    {
        if ready[i] {
            return Some(i);
        }
    }
    None
}

/// Turn one drain of device `idx` into the batch handed to the script, or
/// `None` when the drain was a spurious wake and the multiplexer must go back
/// to waiting: a returned batch is never empty.
pub fn mux_batch(raw: &Vec<RawEvent>, idx: u32) -> (r: Option<Vec<InputEvent>>)
    ensures
        match r {
            Some(batch) => raw@.len() > 0 && batch@ == tagged_batch(raw@, idx),
            None => raw@.len() == 0,
        },
{
    if raw.len() == 0 {
        None
    } else {
        Some(tag_events(raw, idx))
    }
}

/// Every batch the poll operation delivers to the script indexes the
/// registered device list: with one readiness flag per registered device,
/// the multiplexer only ever selects an index below the device count, and
/// tagging stamps that index on every event of the drained batch.  The one
/// premise is the machine limit that the device count fits the 32-bit
/// index field of a script-visible event.
pub proof fn lemma_poll_batch_source_index_in_range(ready: Seq<bool>, i: int, raw: Seq<RawEvent>)
    requires
        is_first_ready(ready, i),
        ready.len() <= u32::MAX + 1,
    ensures
        0 <= i < ready.len(),
        forall|k: int|
            0 <= k < tagged_batch(raw, i as u32).len() ==> #[trigger] tagged_batch(
                raw,
                i as u32,
            )[k].device_idx < ready.len(),
{
    assert forall|k: int|
        0 <= k < tagged_batch(raw, i as u32).len() implies #[trigger] tagged_batch(
        raw,
        i as u32,
    )[k].device_idx < ready.len() by {
        assert(tagged_batch(raw, i as u32)[k].device_idx == i as u32);
    }
}

/// One multiplex call on a device made ready with buffered events returns
/// exactly those events, order preserved, each tagged with that device's
/// index — and the batch is as long as the drain, hence never empty.
pub proof fn lemma_mux_batch_complete(raw: Seq<RawEvent>, idx: u32)
    requires
        raw.len() > 0,
    ensures
        tagged_batch(raw, idx).len() == raw.len(),
        forall|k: int|
            0 <= k < raw.len() ==> #[trigger] tagged_batch(raw, idx)[k] == tagged_event(
                raw[k],
                idx,
            ),
{
}

} // verus!
