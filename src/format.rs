//! Splitting a count of seconds for display.
use vstd::prelude::*;

verus! {

/// `secs` as hours, minutes and seconds.
pub fn clock_parts(secs: u64) -> (r: (u64, u64, u64))
    ensures
        r.0 * 3600 + r.1 * 60 + r.2 == secs,
        r.1 < 60,
        r.2 < 60,
{
    let hours = secs / 3600;
    let rest = secs % 3600;
    (hours, rest / 60, rest % 60)
}

} // verus!
