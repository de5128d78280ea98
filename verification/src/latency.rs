//! Signed, optionally unmeasured durations between two points of the pipeline.

use vstd::prelude::*;

verus! {

/// A duration in microseconds.
#[derive(Debug, Clone, Copy, PartialEq, Eq, Structural)]
pub struct MicroSeconds(pub u64);

/// How far a point of the pipeline is from real time.
#[derive(Debug, Clone, Copy, PartialEq, Eq, Structural)]
pub enum Instant {
    /// Not measured.
    NotMeasured,
    /// Behind real time by the given amount (greater than zero).
    Positive(MicroSeconds),
    /// Ahead of real time by the given amount.
    Negative(MicroSeconds),
}

/// The two latencies an event carries.
#[derive(Debug, Clone, Copy, PartialEq, Eq, Structural)]
pub struct Latency {
    /// From recording to the entry of the pipeline.
    pub internal: Instant,
    /// From the entry of the pipeline to the delivery to the callback.
    pub airap: Instant,
}

impl Latency {
    /// The latency of an event for which nothing was measured.
    pub fn unmeasured() -> (r: Latency)
        ensures
            r == (Latency { internal: Instant::NotMeasured, airap: Instant::NotMeasured }),
    {
        Latency { internal: Instant::NotMeasured, airap: Instant::NotMeasured }
    }
}

} // verus!
