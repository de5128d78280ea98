//! Which workers a resolved request needs, and what a derived worker makes
//! of the events it is sent.

use vstd::prelude::*;

use crate::event::{Event, MovingAverageEvent};
use crate::feature::feature_flags::{lemma_flags_distinct, MOVING_AVERAGE, NONE, RAW};
use crate::feature::resolution::{
    lemma_raw_alone, lemma_resolve_consistent, requested_config, resolve, Resolution,
};
use crate::feature::{Feature, FeatureStore};
use crate::latency::{Instant, Latency};

verus! {

impl Feature {
    /// Whether a worker runs for this feature. The device notice is accepted
    /// in a request, but nothing produces it yet.
    pub open spec fn spec_has_worker(&self) -> bool {
        self is Raw || self is MovingAverage
    }

    /// Whether this feature computes its events from those of another one,
    /// and so owns a channel on which it is sent them.
    pub open spec fn spec_is_derived(&self) -> bool {
        self.spec_dependencies() != NONE
    }

    /// Whether a worker runs for this feature.
    #[verifier::when_used_as_spec(spec_has_worker)]
    pub fn has_worker(&self) -> (r: bool)
        ensures
            r == self.spec_has_worker(),
    {
        match self {
            Feature::Raw { .. } => true,
            Feature::DefaultDeviceChange => false,
            Feature::MovingAverage => true,
        }
    }

    /// Whether this feature computes its events from those of another one.
    #[verifier::when_used_as_spec(spec_is_derived)]
    pub fn is_derived(&self) -> (r: bool)
        ensures
            r == self.spec_is_derived(),
    {
        self.dependencies() != NONE
    }
}

/// The features that get a worker, in the order in which the workers are
/// started: raw capture, then the moving average, each if it is configured.
pub open spec fn planned_workers(resolution: Resolution) -> Seq<Feature> {
    let capture = if resolution.configs.contains_key(RAW) {
        seq![resolution.configs[RAW]]
    } else {
        Seq::<Feature>::empty()
    };
    let average = if resolution.configs.contains_key(MOVING_AVERAGE) {
        seq![resolution.configs[MOVING_AVERAGE]]
    } else {
        Seq::<Feature>::empty()
    };
    capture + average
}

/// The features for which a worker has to be started, each with the settings
/// the store holds for it.
pub fn plan_workers(store: &FeatureStore) -> (workers: Vec<Feature>)
    ensures
        workers@ == planned_workers(store@),
        forall|k: int| 0 <= k < workers@.len() ==> (#[trigger] workers@[k]).spec_has_worker(),
{
    let mut workers: Vec<Feature> = Vec::new();
    if let Some(feature) = store.get(&RAW) {
        workers.push(*feature);
    }
    if let Some(feature) = store.get(&MOVING_AVERAGE) {
        workers.push(*feature);
    }
    assert(workers@ =~= planned_workers(store@));
    workers
}

/// Whether the moving-average worker publishes an event when it is sent an
/// event of `producer`: it does for raw buffers alone.
pub open spec fn moving_average_reacts(producer: u32) -> bool {
    producer == RAW
}

/// What the moving-average worker makes of an event it is sent. Of a raw
/// buffer it publishes the mean, as the one value of an event whose latency
/// is not measured; `mean` computes it. Any other event it ignores.
pub fn derive_moving_average<S, F: FnOnce(&Vec<S>) -> S>(event: &Event<S>, mean: F) -> (r: Option<
    Event<S>,
>)
    requires
        forall|data: &Vec<S>| call_requires(mean, (data,)),
    ensures
        r is Some <==> moving_average_reacts(event.spec_producer()),
        match *event {
            Event::Raw(raw) => r matches Some(Event::MovingAverage(derived))
                && derived.average@.len() == 1 && call_ensures(
                mean,
                (&raw.data,),
                derived.average@[0],
            ) && derived.latency == (Latency {
                internal: Instant::NotMeasured,
                airap: Instant::NotMeasured,
            }),
            _ => r is None,
        },
{
    match event {
        Event::Raw(raw) => {
            let value = mean(&raw.data);
            Some(Event::MovingAverage(MovingAverageEvent::from_mean(value)))
        },
        _ => None,
    }
}

/// A request for raw capture alone starts the capture worker alone, with the
/// settings of the last request: no worker computes a moving average.
pub proof fn lemma_raw_alone_plans_capture_alone(features: Seq<Feature>)
    requires
        features.len() > 0,
        forall|i: int| 0 <= i < features.len() ==> #[trigger] features[i] is Raw,
    ensures
        planned_workers(resolve(features)) == seq![features.last()],
        forall|k: int|
            0 <= k < planned_workers(resolve(features)).len() ==> !(#[trigger] planned_workers(
                resolve(features),
            )[k] is MovingAverage),
{
    lemma_raw_alone(features);
    lemma_resolve_consistent(features);
    lemma_flags_distinct();
    assert(features.last() is Raw);
    assert(requested_config(features, RAW) == Some(features.last()));
    assert(planned_workers(resolve(features)) =~= seq![features.last()]);
}

} // verus!
