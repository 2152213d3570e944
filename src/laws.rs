//! What holds of a counter across several operations.
use crate::counter::replay;
use crate::counter::step;
use crate::counter::total;
use crate::counter::units_of;
use crate::counter::CounterOp;
use crate::rate::window_millis;
use crate::rate::window_rate;
use crate::rate::Rate;
use vstd::prelude::*;

verus! {

/// The operations `report(vs[0])`, `report(vs[1])`, ... in that order.
pub open spec fn reports(vs: Seq<u32>) -> Seq<CounterOp> {
    vs.map_values(|v: u32| CounterOp::Report(v))
}

proof fn lemma_replay_reports(w: Seq<u32>, vs: Seq<u32>)
    ensures
        replay(w, reports(vs)) == w + vs,
    decreases vs.len(),
{
    if vs.len() == 0 {
        assert(w + vs =~= w);
    } else {
        assert(reports(vs).drop_first() =~= reports(vs.drop_first()));
        lemma_replay_reports(w.push(vs[0]), vs.drop_first());
        assert(w.push(vs[0]) + vs.drop_first() =~= w + vs);
    }
}

/// Reports `v1, ..., vn` into a fresh window, closed after a time of `secs`
/// seconds and `millis` milliseconds that is not zero, give the rate
/// `(v1 + ... + vn) / E`: the window holds exactly the reported values, and
/// the rate counts their sum over the window's elapsed milliseconds. This
/// holds wherever that sum fits in a `u32`; above it the sum saturates.
pub proof fn lemma_rate_of_reports(vs: Seq<u32>, secs: u64, millis: u32)
    requires
        total(vs) <= u32::MAX,
        window_millis(secs, millis) > 0,
    ensures
        replay(Seq::empty(), reports(vs)) == vs,
        window_rate(units_of(replay(Seq::empty(), reports(vs))), secs, millis) == Some(
            Rate { units: total(vs) as u32, elapsed_millis: window_millis(secs, millis) as u128 },
        ),
{
    lemma_replay_reports(Seq::empty(), vs);
    assert(Seq::<u32>::empty() + vs =~= vs);
}

/// The order of two reports does not change the units of the window they
/// join (`report` keeps the window's start, so the start agrees as well).
pub proof fn lemma_report_order(w: Seq<u32>, a: u32, b: u32)
    ensures
        units_of(step(step(w, CounterOp::Report(a)), CounterOp::Report(b))) == units_of(
            step(step(w, CounterOp::Report(b)), CounterOp::Report(a)),
        ),
{
    let wab = w.push(a).push(b);
    let wba = w.push(b).push(a);
    assert(wab.drop_last() =~= w.push(a));
    assert(wba.drop_last() =~= w.push(b));
    assert(w.push(a).drop_last() =~= w);
    assert(w.push(b).drop_last() =~= w);
    assert(total(w.push(a)) == total(w) + a);
    assert(total(w.push(b)) == total(w) + b);
    assert(total(wab) == total(w.push(a)) + b);
    assert(total(wba) == total(w.push(b)) + a);
}

/// A window boundary forgets everything before it: after any operations that
/// end in `reset` or `throughput` (the operation at `k`), the window, and so
/// every later rate, depends only on the operations that follow the
/// boundary, never on the window the counter started with or on what was
/// reported before.
pub proof fn lemma_restart_forgets(w: Seq<u32>, ops: Seq<CounterOp>, k: int)
    requires
        0 <= k < ops.len(),
        ops[k] == CounterOp::Restart,
    ensures
        replay(w, ops) == replay(Seq::empty(), ops.skip(k + 1)),
    decreases k,
{
    if k == 0 {
        assert(ops.drop_first() =~= ops.skip(1));
    } else {
        lemma_restart_forgets(step(w, ops[0]), ops.drop_first(), k - 1);
        assert(ops.drop_first().skip(k) =~= ops.skip(k + 1));
    }
}

} // verus!
