//! Instants and durations as plain numbers.

use vstd::prelude::*;

verus! {

/// Nanoseconds in a millisecond.
pub const NANOS_PER_MS: u64 = 1_000_000;

/// The latest instant the clock reports: about 146 years after the start.
pub const CLOCK_MAX: u64 = 0x4000_0000_0000_0000;

/// Whether `now` is an instant that the clock can report. Adding any number of
/// milliseconds below 2^32 to it still fits in a `u64`.
pub open spec fn clock_ok(now: u64) -> bool {
    now <= CLOCK_MAX
}

/// The instant `ms` milliseconds after `now`.
pub open spec fn later(now: u64, ms: int) -> int {
    now + ms * NANOS_PER_MS
}

/// The instant `ms` milliseconds after `now`.
pub fn after_ms(now: u64, ms: u32) -> (t: u64)
    requires
        clock_ok(now),
    ensures
        t == later(now, ms as int),
{
    now + (ms as u64) * NANOS_PER_MS
}

/// Whole milliseconds from `from` to `now`; zero when `from` is still ahead.
pub open spec fn elapsed_ms_spec(from: u64, now: u64) -> int {
    if now >= from {
        (now - from) / (NANOS_PER_MS as int)
    } else {
        0
    }
}

/// Whole milliseconds from `from` to `now`; zero when `from` is still ahead.
pub fn elapsed_ms(from: u64, now: u64) -> (ms: u64)
    ensures
        ms == elapsed_ms_spec(from, now),
{
    if now >= from {
        (now - from) / NANOS_PER_MS
    } else {
        0
    }
}

/// A millisecond is a million nanoseconds, and durations add up.
pub proof fn instants_add_up(now: u64, a: int, b: int, then: u64)
    ensures
        later(now, a) - now == a * 1_000_000,
        then == later(now, a) ==> later(then, b) == later(now, a + b),
{
}

/// What has elapsed is counted in whole milliseconds, and nothing has before its
/// start.
pub proof fn elapsed_time_is_whole_milliseconds(from: u64, now: u64)
    ensures
        now < from ==> elapsed_ms_spec(from, now) == 0,
        now >= from ==> elapsed_ms_spec(from, now) * 1_000_000 <= now - from < (elapsed_ms_spec(
            from,
            now,
        ) + 1) * 1_000_000,
{
}

/// A duration that was added to an instant has elapsed at the sum.
pub proof fn what_was_added_has_elapsed(from: u64, now: u64, ms: u32)
    requires
        now == later(from, ms as int),
    ensures
        elapsed_ms_spec(from, now) == ms,
{
}

} // verus!
