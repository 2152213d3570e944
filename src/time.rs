//! The time source that a counter measures its windows with.
use std::time::Duration;
use std::time::Instant;
use vstd::prelude::*;

verus! {

#[verifier::external_type_specification]
#[verifier::external_body]
pub struct ExInstant(std::time::Instant);

/// Relies on `Duration::as_secs`: the whole seconds of a duration. Any `u64`
/// can come back, so nothing more is stated.
pub assume_specification[ core::time::Duration::as_secs ](d: &Duration) -> u64;

/// Relies on `Duration::subsec_millis`: the whole milliseconds of the part of
/// a duration below one second, which std documents as less than one thousand.
pub assume_specification[ core::time::Duration::subsec_millis ](d: &Duration) -> (r: u32)
    ensures
        r < 1000,
;

/// Relies on `Instant::now`: reads the monotonic clock.
#[verifier::external_body]
fn clock_now() -> Instant {
    Instant::now()
}

/// Relies on `Instant::elapsed`: the time since the instant, never negative.
#[verifier::external_body]
fn clock_elapsed(i: &Instant) -> Duration {
    i.elapsed()
}

/// A source of instants: a counter takes one when its window starts and asks
/// it later how much time has passed since then.
///
/// Implementations other than the monotonic clock (fixed test doubles, for
/// instance) are welcome; a counter assumes nothing of the durations returned.
pub trait TimeSource: Sized {
    /// Captures the current instant.
    fn now() -> Self;

    /// The time from this instant to the present one.
    fn elapsed(&self) -> Duration;
}

impl TimeSource for Instant {
    fn now() -> Self {
        clock_now()
    }

    fn elapsed(&self) -> Duration {
        clock_elapsed(self)
    }
}

/// The whole seconds and whole milliseconds below a second of the time that
/// has passed since `start`.
pub fn elapsed_parts<T: TimeSource>(start: &T) -> (r: (u64, u32))
    ensures
        r.1 < 1000,
{
    let d = start.elapsed();
    (d.as_secs(), d.subsec_millis())
}

} // verus!
