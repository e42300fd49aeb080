//! Telling an echo of this process's own mixer write apart from an external
//! change.
//!
//! The watch thread records each write it makes; an ALSA event that arrives
//! within a short window after such a write is assumed to be its echo.  The
//! application keeps one tracker for the process and supplies the monotonic
//! clock in milliseconds.

use vstd::prelude::*;

use crate::text::str_eq;

verus! {

/// How long after our own mixer write an ALSA event is still assumed to be
/// the echo of that write.
pub const SELF_EVENT_WINDOW_MS: u64 = 400;

/// The time of the most recent self-originated write and the number of writes.
#[derive(Clone, Copy, Debug, Eq, PartialEq)]
pub struct SelfWriteTracker {
    /// Milliseconds on the process clock of the last write; `u64::MAX` until one is made.
    pub last_self_write_ms: u64,
    /// Number of writes recorded, wrapping at `u64::MAX`.
    pub generation: u64,
}

/// The tracker after a write recorded at `now_ms`.
pub open spec fn after_self_write(t: SelfWriteTracker, now_ms: u64) -> SelfWriteTracker {
    SelfWriteTracker {
        last_self_write_ms: now_ms,
        generation: if t.generation == u64::MAX {
            0
        } else {
            (t.generation + 1) as u64
        },
    }
}

/// How long after the last write `now_ms` is, if that is within the window.
pub open spec fn event_age(t: SelfWriteTracker, now_ms: u64) -> Option<u64> {
    if t.last_self_write_ms == u64::MAX {
        None
    } else {
        let age: int = if now_ms >= t.last_self_write_ms {
            now_ms - t.last_self_write_ms
        } else {
            0
        };
        if age < SELF_EVENT_WINDOW_MS {
            Some(age as u64)
        } else {
            None
        }
    }
}

impl SelfWriteTracker {
    /// A tracker with no write recorded.
    pub fn new() -> (r: Self)
        ensures
            r.last_self_write_ms == u64::MAX,
            r.generation == 0,
    {
        SelfWriteTracker { last_self_write_ms: u64::MAX, generation: 0 }
    }
}

/// Records that this process wrote to the mixer at `now_ms`.
pub fn note_self_write(tracker: &mut SelfWriteTracker, now_ms: u64)
    ensures
        *final(tracker) == after_self_write(*old(tracker), now_ms),
{
    tracker.generation = tracker.generation.wrapping_add(1);
    tracker.last_self_write_ms = now_ms;
}

/// Number of mixer or runtime-state writes recorded.
pub fn self_write_generation(tracker: &SelfWriteTracker) -> (r: u64)
    ensures
        r == tracker.generation,
{
    tracker.generation
}

/// If an event handled at `now_ms` is within the self-event window, how many
/// milliseconds after our write it arrived.
pub fn self_event_age_ms(tracker: &SelfWriteTracker, now_ms: u64) -> (r: Option<u64>)
    ensures
        r == event_age(*tracker, now_ms),
{
    let last = tracker.last_self_write_ms;
    if last == u64::MAX {
        return None;
    }
    let age = now_ms.saturating_sub(last);
    if age < SELF_EVENT_WINDOW_MS {
        Some(age)
    } else {
        None
    }
}

/// A write recorded at `now_ms` marks every event in the following window as
/// its echo, and nothing is marked before any write is recorded.
pub proof fn lemma_self_write_window(t: SelfWriteTracker, now_ms: u64, later_ms: u64)
    requires
        now_ms < u64::MAX,
    ensures
        now_ms <= later_ms < now_ms + SELF_EVENT_WINDOW_MS ==> event_age(
            after_self_write(t, now_ms),
            later_ms,
        ) == Some((later_ms - now_ms) as u64),
        later_ms >= now_ms + SELF_EVENT_WINDOW_MS ==> event_age(
            after_self_write(t, now_ms),
            later_ms,
        ) is None,
        event_age(SelfWriteTracker { last_self_write_ms: u64::MAX, generation: t.generation }, later_ms)
            is None,
{
}

/// Whether tracing is on for the value of `AE5_TRACE`: on unless it is
/// exactly `0`.
pub fn enabled_from_env(value: Option<&str>) -> (r: bool)
    ensures
        r == !(value matches Some(v) && v@ == "0"@),
{
    match value {
        Some(v) => !str_eq(v, "0"),
        None => true,
    }
}

} // verus!
