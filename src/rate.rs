//! The rate that closes a measurement window.
use vstd::prelude::*;

verus! {

/// A measured rate: `units` reported over `elapsed_millis` milliseconds, that
/// is `units * 1000 / elapsed_millis` units per second.
///
/// The counters of this library make one only over a window of at least one
/// millisecond, so `elapsed_millis` is never zero in a rate they return.
#[derive(Clone, Copy, Debug, PartialEq, Eq, Structural)]
pub struct Rate {
    pub units: u32,
    pub elapsed_millis: u128,
}

/// A window's elapsed time in whole milliseconds, from its whole seconds and
/// the whole milliseconds below a second.
pub open spec fn window_millis(secs: u64, millis: u32) -> int {
    secs * 1000 + millis
}

/// The rate of `units` over a window whose elapsed time is `secs` seconds and
/// `millis` milliseconds; `None` where that time is zero, so that no rate can
/// be given.
pub open spec fn window_rate(units: u32, secs: u64, millis: u32) -> Option<Rate> {
    if window_millis(secs, millis) == 0 {
        None
    } else {
        Some(Rate { units, elapsed_millis: window_millis(secs, millis) as u128 })
    }
}

/// The rate of `units` over `secs` seconds and `millis` milliseconds; time
/// below one millisecond is not counted, and a window that lasted under one
/// millisecond has no rate.
pub fn rate_of(units: u32, secs: u64, millis: u32) -> (r: Option<Rate>)
    ensures
        r == window_rate(units, secs, millis),
        r is None <==> secs == 0 && millis == 0,
{
    if secs == 0 && millis == 0 {
        None
    } else {
        let elapsed_millis: u128 = secs as u128 * 1000 + millis as u128;
        Some(Rate { units, elapsed_millis })
    }
}

} // verus!
