//! A counter that many threads can share.
use crate::counter::Throughput;
use crate::rate::window_rate;
use crate::rate::Rate;
use crate::time::TimeSource;
use vstd::prelude::*;
use vstd::rwlock::RwLock;
use vstd::rwlock::RwLockPredicate;

verus! {

/// What the lock of a `ThroughputSynchronized` asks of its counter beyond
/// the counter's own invariant: nothing.
pub struct AnyCounter;

impl<T: TimeSource> RwLockPredicate<Throughput<T>> for AnyCounter {
    open spec fn inv(self, v: Throughput<T>) -> bool {
        true
    }
}

/// A `Throughput` behind a lock, for use from several threads at once.
///
/// Each operation changes the counter only while it holds the lock, so
/// operations from different threads take effect one at a time, in some
/// order. That no report is lost between threads rests on the lock's mutual
/// exclusion; the contracts here do not state it.
///
/// The time source is never consulted while the lock is held: `reset` and
/// `throughput` make the fresh counter before they take the lock, and
/// `throughput` times the closed window after releasing it. Only verified code,
/// which does not panic, runs under the lock, so the lock is always released;
/// a time source that panics fails the calling operation alone, and the
/// counter stays usable. The new window starts when the call begins, so under
/// contention it can overlap the closed one by the time spent waiting for the
/// lock.
pub struct ThroughputSynchronized<T: TimeSource> {
    tp_unsynchronized: RwLock<Throughput<T>, AnyCounter>,
}

impl<T: TimeSource> ThroughputSynchronized<T> {
    /// A shared counter whose window starts now and holds nothing.
    pub fn new() -> (r: Self) {
        let tp = Throughput::new();
        ThroughputSynchronized { tp_unsynchronized: RwLock::new(tp, Ghost(AnyCounter)) }
    }

    /// Adds `value` to the current window, as `Throughput::report` does.
    pub fn report(&self, value: u32) {
        let (mut tp, handle) = self.tp_unsynchronized.acquire_write();
        tp.report(value);
        handle.release_write(tp);
    }

    /// Discards the current window, as `Throughput::reset` does.
    pub fn reset(&self) {
        let fresh = Throughput::new();
        let (_discarded, handle) = self.tp_unsynchronized.acquire_write();
        handle.release_write(fresh);
    }

    /// Closes the current window, as `Throughput::throughput` does: what
    /// comes back is the rate of the units that the window held over its
    /// elapsed time, or `None` where that time was under one millisecond.
    /// Which window that is depends on how the threads' operations fell.
    pub fn throughput(&self) -> (r: Option<Rate>)
        ensures
            exists|units: u32, secs: u64, millis: u32|
                millis < 1000 && r == window_rate(units, secs, millis),
    {
        let fresh = Throughput::new();
        let (closed, handle) = self.tp_unsynchronized.acquire_write();
        handle.release_write(fresh);
        closed.current_rate()
    }
}

impl<T: TimeSource> Default for ThroughputSynchronized<T> {
    fn default() -> (r: Self) {
        Self::new()
    }
}

} // verus!
