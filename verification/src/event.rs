//! The events that the pipeline delivers, over any type of sample.

use vstd::prelude::*;

use crate::feature::feature_flags::{DEFAULT_DEVICE_CHANGE, MOVING_AVERAGE, RAW};
use crate::latency::{Instant, Latency};

verus! {

/// One captured buffer.
#[derive(Debug, Clone)]
pub struct RawEvent<S> {
    pub data: Vec<S>,
    pub latency: Latency,
}

/// The mean of one captured buffer.
#[derive(Debug, Clone)]
pub struct MovingAverageEvent<S> {
    pub average: Vec<S>,
    pub latency: Latency,
}

/// What a feature hands to the callback.
#[derive(Debug, Clone)]
pub enum Event<S> {
    Raw(RawEvent<S>),
    DefaultDeviceChange,
    MovingAverage(MovingAverageEvent<S>),
}

impl<S> MovingAverageEvent<S> {
    /// The event that carries `mean` as its one value. Its latency is not
    /// measured: that of the buffer it was computed from is not passed on.
    pub fn from_mean(mean: S) -> (r: Self)
        ensures
            r.average@ == seq![mean],
            r.latency == (Latency { internal: Instant::NotMeasured, airap: Instant::NotMeasured }),
    {
        let mut average: Vec<S> = Vec::new();
        average.push(mean);
        MovingAverageEvent { average, latency: Latency::unmeasured() }
    }
}

impl<S> Event<S> {
    /// The flag of the feature that produces events of this variant.
    pub open spec fn spec_producer(&self) -> u32 {
        match self {
            Event::Raw(_) => RAW,
            Event::DefaultDeviceChange => DEFAULT_DEVICE_CHANGE,
            Event::MovingAverage(_) => MOVING_AVERAGE,
        }
    }

    /// The flag of the feature that produces events of this variant.
    #[verifier::when_used_as_spec(spec_producer)]
    pub fn producer(&self) -> (r: u32)
        ensures
            r == self.spec_producer(),
    {
        match self {
            Event::Raw(_) => RAW,
            Event::DefaultDeviceChange => DEFAULT_DEVICE_CHANGE,
            Event::MovingAverage(_) => MOVING_AVERAGE,
        }
    }
}

} // verus!
