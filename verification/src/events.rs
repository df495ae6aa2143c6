//! Event records crossing the host/script boundary.
//!
//! A kernel-delivered [`RawEvent`] is turned into a script-visible
//! [`InputEvent`] by tagging it with the index of the device that produced
//! it.  In the other direction, a script-supplied [`OutputRecord`] is
//! validated and converted into a [`SyntheticEvent`] ready for injection.

use vstd::prelude::*;

verus! {

/// One kernel-delivered record of a state change on a physical input device.
#[derive(Clone, Copy, PartialEq, Eq, Structural, Debug)]
pub struct RawEvent {
    pub kind: u16,
    pub code: u16,
    pub value: i32,
}

/// One script-visible event: a raw record widened to `u32` fields and tagged
/// with the index of the device that produced it.
#[derive(Clone, Copy, PartialEq, Eq, Structural, Debug)]
pub struct InputEvent {
    pub kind: u32,
    pub code: u32,
    pub value: u32,
    pub device_idx: u32,
}

/// The script-visible event derived from raw record `e` of device `idx`.
pub open spec fn tagged_event(e: RawEvent, idx: u32) -> InputEvent {
    InputEvent {
        kind: e.kind as u32,
        code: e.code as u32,
        value: e.value as u32,
        device_idx: idx,
    }
}

/// The batch derived from draining `raw` out of device `idx`: every record
/// tagged with `idx`, order preserved.
pub open spec fn tagged_batch(raw: Seq<RawEvent>, idx: u32) -> Seq<InputEvent> {
    raw.map_values(|e: RawEvent| tagged_event(e, idx))
}

/// Tag each drained raw record with the index of the device it came from.
pub fn tag_events(raw: &Vec<RawEvent>, idx: u32) -> (r: Vec<InputEvent>)
    ensures
        r@ == tagged_batch(raw@, idx),
{
    let mut out: Vec<InputEvent> = Vec::new();
    let n = raw.len();
    for i in 0..n
        invariant
            n == raw@.len(),
            out@ == tagged_batch(raw@.take(i as int), idx),
    {
        let e = raw[i];
        out.push(InputEvent {
            kind: e.kind as u32,
            code: e.code as u32,
            value: #[verifier::truncate] (e.value as u32),
            device_idx: idx,
        });
        proof {
            assert(raw@.take(i + 1).drop_last() == raw@.take(i as int));
            assert(out@ =~= tagged_batch(raw@.take(i + 1), idx));
        }
    }
    proof {
        assert(raw@.take(n as int) == raw@);
    }
    out
}

/// A script-supplied emission record.  A field holds `Some` only when the
/// script passed a numeric value under that name; anything missing or
/// non-numeric arrives as `None`.
#[derive(Clone, Copy, PartialEq, Eq, Debug)]
pub struct OutputRecord {
    pub kind: Option<i64>,
    pub code: Option<i64>,
    pub value: Option<i64>,
}

/// A kernel-level synthetic event, ready to be written to the virtual
/// output device.
#[derive(Clone, Copy, PartialEq, Eq, Structural, Debug)]
pub struct SyntheticEvent {
    pub kind: u16,
    pub code: u16,
    pub value: i32,
}

/// `v` clamped into `u16`, as a numeric script value is narrowed to an event
/// type or code.
pub open spec fn sat_u16(v: i64) -> u16 {
    if v < 0 {
        0u16
    } else if v > 0xffff {
        0xffffu16
    } else {
        v as u16
    }
}

/// `v` clamped into `i32`, as a numeric script value is narrowed to an event
/// value.
pub open spec fn sat_i32(v: i64) -> i32 {
    if v < i32::MIN as i64 {
        i32::MIN
    } else if v > i32::MAX as i64 {
        i32::MAX
    } else {
        v as i32
    }
}

/// The synthetic event a record converts to: `Some` exactly when all three
/// fields are present and numeric, `None` otherwise.
pub open spec fn spec_synthetic(rec: OutputRecord) -> Option<SyntheticEvent> {
    match (rec.kind, rec.code, rec.value) {
        (Some(k), Some(c), Some(v)) => Some(
            SyntheticEvent { kind: sat_u16(k), code: sat_u16(c), value: sat_i32(v) },
        ),
        _ => None,
    }
}

/// Validate a script-supplied record and convert it to a synthetic event.
///
/// Returns `Some` — and the caller writes the event and reports success —
/// exactly when `kind`, `code` and `value` are all present; a malformed
/// record yields `None`, which the caller answers with `false` instead of a
/// script-visible error, so one bad emission never aborts the session.
pub fn build_synthetic(rec: &OutputRecord) -> (r: Option<SyntheticEvent>)
    ensures
        r == spec_synthetic(*rec),
        r is Some <==> rec.kind is Some && rec.code is Some && rec.value is Some,
{
    match (rec.kind, rec.code, rec.value) {
        (Some(k), Some(c), Some(v)) => Some(
            SyntheticEvent { kind: clamp_u16(k), code: clamp_u16(c), value: clamp_i32(v) },
        ),
        _ => None,
    }
}

/// `v` clamped into `u16` at run time.
fn clamp_u16(v: i64) -> (r: u16)
    ensures
        r == sat_u16(v),
{
    if v < 0 {
        0u16
    } else if v > 0xffff {
        0xffffu16
    } else {
        v as u16
    }
}

/// `v` clamped into `i32` at run time.
fn clamp_i32(v: i64) -> (r: i32)
    ensures
        r == sat_i32(v),
{
    if v < i32::MIN as i64 {
        i32::MIN
    } else if v > i32::MAX as i64 {
        i32::MAX
    } else {
        v as i32
    }
}

/// Every event of a tagged batch carries the index of its device, so with
/// `idx` below the number of registered devices the whole batch indexes the
/// registry's device list.
pub proof fn lemma_batch_source_index_in_range(raw: Seq<RawEvent>, idx: u32, n_devices: u32)
    requires
        idx < n_devices,
    ensures
        forall|k: int|
            0 <= k < tagged_batch(raw, idx).len() ==> #[trigger] tagged_batch(
                raw,
                idx,
            )[k].device_idx < n_devices,
{
}

} // verus!
