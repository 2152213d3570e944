//! The unsynchronized counter, and the model of its measurement window.
use crate::rate::rate_of;
use crate::rate::window_rate;
use crate::rate::Rate;
use crate::time::elapsed_parts;
use crate::time::TimeSource;
use vstd::prelude::*;

verus! {

/// The exact sum of a window's reports.
pub open spec fn total(w: Seq<u32>) -> int
    decreases w.len(),
{
    if w.len() == 0 {
        0
    } else {
        total(w.drop_last()) + w.last()
    }
}

/// The units a counter holds for a window: the sum of its reports, saturated
/// at `u32::MAX` (a report that would pass the maximum leaves it there).
pub open spec fn units_of(w: Seq<u32>) -> u32 {
    if total(w) <= u32::MAX {
        total(w) as u32
    } else {
        u32::MAX
    }
}

/// An operation on a counter's window, as the model sees it.
pub ghost enum CounterOp {
    /// `report(v)`: the value joins the window.
    Report(u32),
    /// `reset` or `throughput`: the window ends and an empty one begins.
    Restart,
}

/// The window after one operation.
pub open spec fn step(w: Seq<u32>, op: CounterOp) -> Seq<u32> {
    match op {
        CounterOp::Report(v) => w.push(v),
        CounterOp::Restart => Seq::empty(),
    }
}

/// The window after a sequence of operations, applied from the first.
pub open spec fn replay(w: Seq<u32>, ops: Seq<CounterOp>) -> Seq<u32>
    decreases ops.len(),
{
    if ops.len() == 0 {
        w
    } else {
        replay(step(w, ops[0]), ops.drop_first())
    }
}

proof fn lemma_total_nonneg(w: Seq<u32>)
    ensures
        total(w) >= 0,
    decreases w.len(),
{
    if w.len() > 0 {
        lemma_total_nonneg(w.drop_last());
    }
}

proof fn lemma_units_push(w: Seq<u32>, v: u32)
    ensures
        units_of(w.push(v)) == (if units_of(w) + v > u32::MAX {
            u32::MAX
        } else {
            (units_of(w) + v) as u32
        }),
{
    assert(w.push(v).drop_last() =~= w);
    lemma_total_nonneg(w);
}

/// A throughput counter over the time source `T`.
///
/// It sums the units reported since its window started; `throughput` turns
/// that sum and the window's elapsed time into a rate and starts a new window.
/// Reports saturate: a sum that would pass `u32::MAX` stays at `u32::MAX`.
/// The counter is not synchronized; see `ThroughputSynchronized` for a shared
/// one.
pub struct Throughput<T: TimeSource> {
    initial_time: T,
    tally: Tally,
}

/// A counter's sum together with the window it sums.
struct Tally {
    sum: u32,
    window: Ghost<Seq<u32>>,
}

impl<T: TimeSource> View for Throughput<T> {
    type V = Seq<u32>;

    /// The values reported in the current window, oldest first.
    closed spec fn view(&self) -> Seq<u32> {
        self.tally.window@
    }
}

impl<T: TimeSource> Throughput<T> {
    /// The counter's sum agrees with its window.
    #[verifier::type_invariant]
    spec fn wf(&self) -> bool {
        self.tally.sum == units_of(self.tally.window@)
    }

    /// The instant at which the current window started.
    pub closed spec fn start(&self) -> T {
        self.initial_time
    }

    /// The units that the current window holds.
    pub open spec fn units(&self) -> u32 {
        units_of(self@)
    }

    /// A counter whose window starts now and holds nothing.
    pub fn new() -> (r: Self)
        ensures
            r@ == Seq::<u32>::empty(),
    {
        Throughput { initial_time: T::now(), tally: Tally { sum: 0, window: Ghost(Seq::empty()) } }
    }

    /// Adds `value` to the current window, which keeps its start.
    pub fn report(&mut self, value: u32)
        ensures
            final(self)@ == step(old(self)@, CounterOp::Report(value)),
            final(self).start() == old(self).start(),
    {
        proof {
            use_type_invariant(&*self);
            lemma_units_push(self.tally.window@, value);
        }
        let sum = self.tally.sum.saturating_add(value);
        self.tally = Tally { sum, window: Ghost(self.tally.window@.push(value)) };
    }

    /// Discards the current window: a new one starts now, holding nothing.
    pub fn reset(&mut self)
        ensures
            final(self)@ == step(old(self)@, CounterOp::Restart),
    {
        proof {
            use_type_invariant(&*self);
        }
        self.initial_time = T::now();
        self.tally = Tally { sum: 0, window: Ghost(Seq::empty()) };
    }

    /// Closes the current window: returns the rate of its units over its
    /// elapsed time, counted in whole milliseconds (`None` where that is
    /// zero), and starts a new, empty window whether or not a rate was given.
    pub fn throughput(&mut self) -> (r: Option<Rate>)
        ensures
            final(self)@ == step(old(self)@, CounterOp::Restart),
            exists|secs: u64, millis: u32|
                millis < 1000 && r == window_rate(old(self).units(), secs, millis),
    {
        let r = self.current_rate();
        self.reset();
        r
    }

    /// The rate of the current window's units over the time that has passed
    /// since the window started, leaving the window as it is.
    pub(crate) fn current_rate(&self) -> (r: Option<Rate>)
        ensures
            exists|secs: u64, millis: u32|
                millis < 1000 && r == window_rate(self.units(), secs, millis),
    {
        proof {
            use_type_invariant(self);
        }
        let (secs, millis) = elapsed_parts(&self.initial_time);
        let r = rate_of(self.tally.sum, secs, millis);
        assert(millis < 1000 && r == window_rate(self.units(), secs, millis));
        r
    }
}

impl<T: TimeSource> Default for Throughput<T> {
    fn default() -> (r: Self)
        ensures
            r@ == Seq::<u32>::empty(),
    {
        Self::new()
    }
}

} // verus!
