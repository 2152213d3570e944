use tp::rate::rate_of;
use tp::{Rate, Throughput, ThroughputSynchronized, TimeSource};

use std::sync::Arc;
use std::time::{Duration, Instant};

struct FakeInstant {}

impl TimeSource for FakeInstant {
    fn now() -> Self {
        FakeInstant {}
    }

    fn elapsed(&self) -> Duration {
        Duration::new(10, 0)
    }
}

struct ZeroTimeFakeInstant {}

impl TimeSource for ZeroTimeFakeInstant {
    fn now() -> Self {
        ZeroTimeFakeInstant {}
    }

    fn elapsed(&self) -> Duration {
        Duration::new(0, 0)
    }
}

struct SubMilliFakeInstant {}

impl TimeSource for SubMilliFakeInstant {
    fn now() -> Self {
        SubMilliFakeInstant {}
    }

    fn elapsed(&self) -> Duration {
        Duration::from_micros(999)
    }
}

struct SplitSecondFakeInstant {}

impl TimeSource for SplitSecondFakeInstant {
    fn now() -> Self {
        SplitSecondFakeInstant {}
    }

    fn elapsed(&self) -> Duration {
        Duration::new(1, 500_999_999)
    }
}

fn per_second(rate: Rate) -> f64 {
    f64::from(rate.units) * 1000.0 / rate.elapsed_millis as f64
}

fn assert_close(a: f64, b: f64) {
    assert!((a - b).abs() < 1e-6, "{} is not close to {}", a, b);
}

#[test]
fn test_basic() {
    let mut tp: Throughput<Instant> = Throughput::new();
    tp.report(1);
    tp.report(1);

    tp.throughput();

    let mut tp: Throughput<FakeInstant> = Throughput::new();
    tp.report(1);
    tp.report(1);

    assert_close(per_second(tp.throughput().unwrap()), 0.2);
}

#[test]
fn test_zero_time() {
    let mut tp: Throughput<ZeroTimeFakeInstant> = Throughput::new();

    assert_eq!(None, tp.throughput());

    tp.report(1);

    assert_eq!(Duration::default(), Duration::new(0, 0));
    assert_eq!(None, tp.throughput());
}

#[test]
fn it_works() {
    let mut tp: Throughput<Instant> = Throughput::new();
    tp.report(1);
    tp.reset();

    let tp: Arc<ThroughputSynchronized<Instant>> = Arc::new(ThroughputSynchronized::new());
    tp.report(1);
    tp.reset();
}

#[test]
fn synchronized_counter_sums_reports() {
    let tp: ThroughputSynchronized<FakeInstant> = ThroughputSynchronized::new();
    tp.report(1);
    let rate = tp.throughput().unwrap();
    assert_eq!(rate, Rate { units: 1, elapsed_millis: 10_000 });
    assert_close(per_second(rate), 0.1);
}

#[test]
fn synchronized_counter_reset_discards_window() {
    let tp: ThroughputSynchronized<FakeInstant> = ThroughputSynchronized::default();
    tp.report(40);
    tp.reset();
    tp.report(3);
    assert_eq!(tp.throughput(), Some(Rate { units: 3, elapsed_millis: 10_000 }));
    assert_eq!(tp.throughput(), Some(Rate { units: 0, elapsed_millis: 10_000 }));
}

#[test]
fn synchronized_counter_zero_time_gives_none() {
    let tp: ThroughputSynchronized<ZeroTimeFakeInstant> = ThroughputSynchronized::new();
    tp.report(5);
    assert_eq!(tp.throughput(), None);
}

#[test]
fn rate_is_sum_over_elapsed_time() {
    let mut tp: Throughput<FakeInstant> = Throughput::new();
    tp.report(7);
    tp.report(0);
    tp.report(13);
    let rate = tp.throughput().unwrap();
    assert_eq!(rate, Rate { units: 20, elapsed_millis: 10_000 });
    assert_close(per_second(rate), 2.0);
}

#[test]
fn sub_millisecond_window_has_no_rate() {
    let mut tp: Throughput<SubMilliFakeInstant> = Throughput::new();
    tp.report(9);
    assert_eq!(tp.throughput(), None);
}

#[test]
fn elapsed_time_counts_whole_milliseconds() {
    let mut tp: Throughput<SplitSecondFakeInstant> = Throughput::new();
    tp.report(3);
    let rate = tp.throughput().unwrap();
    assert_eq!(rate, Rate { units: 3, elapsed_millis: 1_500 });
    assert_close(per_second(rate), 2.0);
}

#[test]
fn reset_discards_earlier_reports() {
    let mut tp: Throughput<FakeInstant> = Throughput::new();
    tp.report(100);
    tp.report(200);
    tp.reset();
    tp.report(1);
    assert_eq!(tp.throughput(), Some(Rate { units: 1, elapsed_millis: 10_000 }));
}

#[test]
fn throughput_starts_a_new_window() {
    let mut tp: Throughput<FakeInstant> = Throughput::new();
    tp.report(50);
    assert_eq!(tp.throughput(), Some(Rate { units: 50, elapsed_millis: 10_000 }));
    assert_eq!(tp.throughput(), Some(Rate { units: 0, elapsed_millis: 10_000 }));
    tp.report(2);
    assert_eq!(tp.throughput(), Some(Rate { units: 2, elapsed_millis: 10_000 }));
}

#[test]
fn fresh_counter_then_immediate_throughput() {
    let mut tp: Throughput<ZeroTimeFakeInstant> = Throughput::new();
    assert_eq!(tp.throughput(), None);
    let mut fresh: Throughput<ZeroTimeFakeInstant> = Throughput::default();
    tp.report(4);
    fresh.report(4);
    assert_eq!(tp.throughput(), fresh.throughput());
}

#[test]
fn reports_saturate_at_maximum() {
    let mut tp: Throughput<FakeInstant> = Throughput::new();
    tp.report(u32::MAX);
    tp.report(1);
    tp.report(u32::MAX);
    assert_eq!(tp.throughput(), Some(Rate { units: u32::MAX, elapsed_millis: 10_000 }));
}

#[test]
fn rate_of_exact_values() {
    assert_eq!(rate_of(2, 10, 0), Some(Rate { units: 2, elapsed_millis: 10_000 }));
    assert_eq!(rate_of(5, 0, 1), Some(Rate { units: 5, elapsed_millis: 1 }));
    assert_eq!(rate_of(5, 2, 999), Some(Rate { units: 5, elapsed_millis: 2_999 }));
    assert_eq!(rate_of(0, 0, 0), None);
    assert_eq!(rate_of(u32::MAX, 0, 0), None);
}

#[test]
fn rate_of_largest_elapsed_time() {
    assert_eq!(
        rate_of(1, u64::MAX, 999),
        Some(Rate { units: 1, elapsed_millis: u64::MAX as u128 * 1000 + 999 })
    );
}

#[test]
fn report_order_does_not_matter() {
    let mut ab: Throughput<FakeInstant> = Throughput::new();
    let mut ba: Throughput<FakeInstant> = Throughput::new();
    ab.report(3);
    ab.report(u32::MAX - 1);
    ba.report(u32::MAX - 1);
    ba.report(3);
    assert_eq!(ab.throughput(), ba.throughput());
}
