//! Conversions between wall-clock durations and the engine's duration type.
//!
//! The engine measures durations as a signed 32-bit count of milliseconds,
//! with `-1` standing for "no deadline". Durations come in as a whole number
//! of seconds plus a sub-second remainder in milliseconds; a duration too
//! large for the engine's type saturates to the largest representable count.
use vstd::prelude::*;

verus! {

/// The engine's duration value meaning "no deadline".
pub const DURATION_INFINITE: i32 = -1;

/// The largest number of milliseconds the engine's duration type can hold.
pub const MAX_DURATION_MS: i32 = 0x7fff_ffff;

/// The exact number of milliseconds in a duration of `secs` whole seconds
/// plus `subsec_millis` milliseconds.
pub open spec fn total_millis(secs: u64, subsec_millis: u32) -> int {
    secs * 1000 + subsec_millis
}

/// Converts a duration to engine milliseconds, saturating at the largest
/// representable count.
pub fn duration_to_ms(secs: u64, subsec_millis: u32) -> (r: i32)
    requires
        subsec_millis < 1000,
    ensures
        total_millis(secs, subsec_millis) >= MAX_DURATION_MS ==> r == MAX_DURATION_MS,
        total_millis(secs, subsec_millis) < MAX_DURATION_MS ==> r == total_millis(
            secs,
            subsec_millis,
        ),
{
    if secs >= 2_147_484 {
        // So many whole seconds exceed the representable range by themselves.
        MAX_DURATION_MS
    } else {
        let total: u64 = secs * 1000 + (subsec_millis as u64);
        if total >= 0x7fff_ffff {
            MAX_DURATION_MS
        } else {
            total as i32
        }
    }
}

/// Converts an optional deadline to engine milliseconds: no deadline maps to
/// the engine's infinite duration, and a duration saturates as in
/// [`duration_to_ms`].
pub fn timeout_to_ms(timeout: Option<(u64, u32)>) -> (r: i32)
    requires
        (timeout matches Some((_, m)) ==> m < 1000),
    ensures
        timeout is None ==> r == DURATION_INFINITE,
        timeout matches Some((s, m)) ==> (if total_millis(s, m) >= MAX_DURATION_MS {
            r == MAX_DURATION_MS
        } else {
            r == total_millis(s, m)
        }),
{
    match timeout {
        None => DURATION_INFINITE,
        Some((secs, subsec_millis)) => duration_to_ms(secs, subsec_millis),
    }
}

/// Converts engine milliseconds back to an optional duration of whole
/// seconds plus a sub-second remainder: the engine's infinite duration maps
/// to no deadline.
pub fn ms_to_duration(ms: i32) -> (r: Option<(u64, u32)>)
    requires
        ms >= -1,
    ensures
        ms == DURATION_INFINITE ==> r is None,
        ms >= 0 ==> r == Some(((ms / 1000) as u64, (ms % 1000) as u32)),
{
    if ms == DURATION_INFINITE {
        None
    } else {
        Some(((ms / 1000) as u64, (ms % 1000) as u32))
    }
}

} // verus!
