use airap::event::{Event, MovingAverageEvent, RawEvent};
use airap::feature::feature_flags::{DEFAULT_DEVICE_CHANGE, MOVING_AVERAGE, RAW};
use airap::feature::{Feature, FeatureStore};
use airap::latency::{Instant, Latency, MicroSeconds};
use airap::pool::{derive_moving_average, plan_workers};

fn plan(features: &[Feature]) -> Vec<Feature> {
    let mut store = FeatureStore::new();
    store.set_features(features);
    plan_workers(&store)
}

fn mean(data: &Vec<f32>) -> f32 {
    let sum: f32 = data.iter().sum();
    sum / data.len() as f32
}

#[test]
fn nothing_requested_nothing_planned() {
    assert_eq!(plan(&[]), vec![]);
}

#[test]
fn raw_alone_plans_the_capture_worker_alone() {
    let raw = Feature::Raw { buffer_latency: 2500, down_sampling_rate: 2 };
    assert_eq!(plan(&[raw]), vec![raw]);
}

#[test]
fn the_moving_average_plans_capture_first() {
    assert_eq!(
        plan(&[Feature::MovingAverage]),
        vec![
            Feature::Raw { buffer_latency: 5000, down_sampling_rate: 0 },
            Feature::MovingAverage
        ]
    );
    let raw = Feature::Raw { buffer_latency: 100, down_sampling_rate: 0 };
    assert_eq!(plan(&[Feature::MovingAverage, raw]), vec![raw, Feature::MovingAverage]);
}

#[test]
fn the_device_notice_gets_no_worker() {
    assert_eq!(plan(&[Feature::DefaultDeviceChange]), vec![]);
    assert_eq!(
        plan(&[Feature::DefaultDeviceChange, Feature::MovingAverage]),
        vec![
            Feature::Raw { buffer_latency: 5000, down_sampling_rate: 0 },
            Feature::MovingAverage
        ]
    );
}

#[test]
fn which_features_have_workers_and_which_are_derived() {
    let raw = Feature::Raw { buffer_latency: 1, down_sampling_rate: 1 };
    assert!(raw.has_worker());
    assert!(!Feature::DefaultDeviceChange.has_worker());
    assert!(Feature::MovingAverage.has_worker());
    assert!(!raw.is_derived());
    assert!(!Feature::DefaultDeviceChange.is_derived());
    assert!(Feature::MovingAverage.is_derived());
}

#[test]
fn events_know_their_producer() {
    let raw: Event<f32> = Event::Raw(RawEvent { data: vec![0.5], latency: Latency::unmeasured() });
    assert_eq!(raw.producer(), RAW);
    let notice: Event<f32> = Event::DefaultDeviceChange;
    assert_eq!(notice.producer(), DEFAULT_DEVICE_CHANGE);
    let average: Event<f32> = Event::MovingAverage(MovingAverageEvent::from_mean(0.5));
    assert_eq!(average.producer(), MOVING_AVERAGE);
}

#[test]
fn the_average_of_one_to_four_is_two_and_a_half() {
    let raw = Event::Raw(RawEvent {
        data: vec![1.0f32, 2.0, 3.0, 4.0],
        latency: Latency {
            internal: Instant::Positive(MicroSeconds(1200)),
            airap: Instant::Negative(MicroSeconds(7)),
        },
    });
    match derive_moving_average(&raw, mean) {
        Some(Event::MovingAverage(derived)) => {
            assert_eq!(derived.average, vec![2.5f32]);
            assert_eq!(
                derived.latency,
                Latency { internal: Instant::NotMeasured, airap: Instant::NotMeasured }
            );
        }
        other => panic!("unexpected {:?}", other),
    }
}

#[test]
fn the_moving_average_ignores_what_is_not_raw() {
    let notice: Event<f32> = Event::DefaultDeviceChange;
    assert!(derive_moving_average(&notice, mean).is_none());
    let average: Event<f32> = Event::MovingAverage(MovingAverageEvent::from_mean(1.0));
    assert!(derive_moving_average(&average, mean).is_none());
}

#[test]
fn from_mean_carries_one_value_and_no_latency() {
    let event = MovingAverageEvent::from_mean(7i16);
    assert_eq!(event.average, vec![7i16]);
    assert_eq!(event.latency, Latency::unmeasured());
    assert_eq!(
        Latency::unmeasured(),
        Latency { internal: Instant::NotMeasured, airap: Instant::NotMeasured }
    );
}
