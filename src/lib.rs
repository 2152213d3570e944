//! A throughput counter: it accumulates reported units over a measurement
//! window and turns them, with the window's elapsed time, into a rate.
use vstd::prelude::*;

pub mod counter;
pub mod laws;
pub mod rate;
pub mod synchronized;
pub mod time;

pub use counter::Throughput;
pub use rate::Rate;
pub use synchronized::ThroughputSynchronized;
pub use time::TimeSource;

verus! {

} // verus!
