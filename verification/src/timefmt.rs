//! Splitting a duration in seconds into calendar-style components for
//! display.

use vstd::prelude::*;

verus! {

/// Splits `t` seconds into whole days, hours, minutes and seconds, in that
/// order.
pub fn pretty_time_parts(t: u64) -> (r: (u64, u64, u64, u64))
    ensures
        r.0 == t / 86400,
        r.1 == (t / 3600) % 24,
        r.2 == (t / 60) % 60,
        r.3 == t % 60,
        r.1 < 24,
        r.2 < 60,
        r.3 < 60,
{
    let seconds = t % 60;
    let minutes = (t / 60) % 60;
    let hours = (t / (60 * 60)) % 24;
    let days = t / (60 * 60 * 24);

    (days, hours, minutes, seconds)
}

} // verus!
