use airap::error::FeatureError;
use airap::feature::feature_flags::{ALL, DEFAULT_DEVICE_CHANGE, MOVING_AVERAGE, NONE, RAW};
use airap::feature::{Feature, FeatureStore, RawFeature};

fn raw(buffer_latency: u32, down_sampling_rate: u32) -> Feature {
    Feature::Raw { buffer_latency, down_sampling_rate }
}

fn default_raw() -> Feature {
    raw(5000, 0)
}

#[test]
fn flags_are_the_documented_bits() {
    assert_eq!(NONE, 0x00);
    assert_eq!(RAW, 0x01);
    assert_eq!(DEFAULT_DEVICE_CHANGE, 0x02);
    assert_eq!(MOVING_AVERAGE, 0x04);
    assert_eq!(ALL, 0x07);
}

#[test]
fn each_feature_has_its_flag() {
    assert_eq!(raw(1, 2).to_flag(), RAW);
    assert_eq!(Feature::DefaultDeviceChange.to_flag(), DEFAULT_DEVICE_CHANGE);
    assert_eq!(Feature::MovingAverage.to_flag(), MOVING_AVERAGE);
}

#[test]
fn only_the_moving_average_depends_on_something() {
    assert_eq!(raw(1, 2).dependencies(), NONE);
    assert_eq!(Feature::DefaultDeviceChange.dependencies(), NONE);
    assert_eq!(Feature::MovingAverage.dependencies(), RAW);
}

#[test]
fn each_feature_has_its_name() {
    assert_eq!(raw(1, 2).to_string(), "raw");
    assert_eq!(Feature::DefaultDeviceChange.to_string(), "default_device_change");
    assert_eq!(Feature::MovingAverage.to_string(), "moving_average");
}

#[test]
fn each_flag_has_its_default() {
    assert_eq!(Feature::default(RAW), Ok(default_raw()));
    assert_eq!(Feature::default(DEFAULT_DEVICE_CHANGE), Ok(Feature::DefaultDeviceChange));
    assert_eq!(Feature::default(MOVING_AVERAGE), Ok(Feature::MovingAverage));
}

#[test]
fn a_mask_that_is_no_flag_has_no_default() {
    assert_eq!(Feature::default(NONE), Err(FeatureError::NoDefault(0)));
    assert_eq!(Feature::default(3), Err(FeatureError::NoDefault(3)));
    assert_eq!(Feature::default(8), Err(FeatureError::NoDefault(8)));
    assert_eq!(Feature::default(ALL), Err(FeatureError::NoDefault(7)));
    assert_eq!(Feature::default(u32::MAX), Err(FeatureError::NoDefault(u32::MAX)));
}

#[test]
fn raw_feature_defaults_to_five_milliseconds() {
    assert_eq!(RawFeature::default().buffer_latency, 5000);
}

#[test]
fn a_new_store_enables_nothing() {
    let store = FeatureStore::new();
    assert_eq!(store.enabled(), NONE);
    assert!(!store.contains(RAW));
    assert!(!store.contains(DEFAULT_DEVICE_CHANGE));
    assert!(!store.contains(MOVING_AVERAGE));
    assert!(!store.contains(ALL));
    assert_eq!(store.get(&RAW), None);
    assert_eq!(store.get(&DEFAULT_DEVICE_CHANGE), None);
    assert_eq!(store.get(&MOVING_AVERAGE), None);
}

#[test]
fn an_empty_request_enables_nothing() {
    let mut store = FeatureStore::new();
    store.set_features(&[]);
    assert_eq!(store.enabled(), NONE);
    assert_eq!(store.get(&RAW), None);
}

#[test]
fn enabled_is_the_union_of_flags_and_dependencies() {
    let requests: [(&[Feature], u32); 8] = [
        (&[], 0),
        (&[Feature::Raw { buffer_latency: 1, down_sampling_rate: 2 }], 1),
        (&[Feature::DefaultDeviceChange], 2),
        (&[Feature::MovingAverage], 5),
        (&[Feature::DefaultDeviceChange, Feature::Raw { buffer_latency: 1, down_sampling_rate: 2 }], 3),
        (&[Feature::MovingAverage, Feature::DefaultDeviceChange], 7),
        (&[Feature::MovingAverage, Feature::Raw { buffer_latency: 1, down_sampling_rate: 2 }], 5),
        (
            &[
                Feature::Raw { buffer_latency: 1, down_sampling_rate: 2 },
                Feature::DefaultDeviceChange,
                Feature::MovingAverage,
            ],
            7,
        ),
    ];
    for (features, mask) in requests {
        let mut store = FeatureStore::new();
        store.set_features(features);
        assert_eq!(store.enabled(), mask);
        for flag in [RAW, DEFAULT_DEVICE_CHANGE, MOVING_AVERAGE] {
            assert_eq!(store.contains(flag), mask & flag != 0);
            assert_eq!(store.get(&flag).is_some(), mask & flag != 0);
            if let Some(feature) = store.get(&flag) {
                assert_eq!(feature.to_flag(), flag);
            }
        }
    }
}

#[test]
fn requested_settings_are_kept() {
    let mut store = FeatureStore::new();
    store.set_features(&[Feature::MovingAverage, raw(2500, 4)]);
    assert_eq!(store.get(&RAW), Some(&raw(2500, 4)));
    assert_eq!(store.get(&MOVING_AVERAGE), Some(&Feature::MovingAverage));
    assert_eq!(store.get(&DEFAULT_DEVICE_CHANGE), None);
}

#[test]
fn the_last_request_for_a_flag_wins() {
    let mut store = FeatureStore::new();
    store.set_features(&[raw(100, 1), Feature::DefaultDeviceChange, raw(200, 2)]);
    assert_eq!(store.get(&RAW), Some(&raw(200, 2)));
    assert_eq!(store.enabled(), RAW | DEFAULT_DEVICE_CHANGE);
}

#[test]
fn moving_average_alone_enables_raw_with_defaults() {
    let mut store = FeatureStore::new();
    store.set_features(&[Feature::MovingAverage]);
    assert!(store.contains(RAW));
    assert!(store.contains(MOVING_AVERAGE));
    assert!(!store.contains(DEFAULT_DEVICE_CHANGE));
    assert_eq!(store.get(&RAW), Some(&default_raw()));
    assert_eq!(store.get(&MOVING_AVERAGE), Some(&Feature::MovingAverage));
    assert_eq!(store.get(&DEFAULT_DEVICE_CHANGE), None);
}

#[test]
fn dropping_the_moving_average_drops_the_implied_raw() {
    let mut store = FeatureStore::new();
    store.set_features(&[Feature::MovingAverage]);
    assert!(store.contains(RAW));
    store.set_features(&[]);
    assert!(!store.contains(RAW));
    assert!(!store.contains(MOVING_AVERAGE));
    assert_eq!(store.get(&RAW), None);
    store.set_features(&[Feature::MovingAverage]);
    store.set_features(&[Feature::DefaultDeviceChange]);
    assert_eq!(store.enabled(), DEFAULT_DEVICE_CHANGE);
    assert_eq!(store.get(&RAW), None);
}

#[test]
fn raw_alone_does_not_enable_the_moving_average() {
    let mut store = FeatureStore::new();
    store.set_features(&[raw(5000, 0)]);
    assert_eq!(store.enabled(), RAW);
    assert!(!store.contains(MOVING_AVERAGE));
    assert_eq!(store.get(&MOVING_AVERAGE), None);
}

#[test]
fn the_same_request_twice_is_the_same_as_once() {
    let features = [Feature::MovingAverage, raw(1234, 3)];
    let mut once = FeatureStore::new();
    once.set_features(&features);
    let mut twice = FeatureStore::new();
    twice.set_features(&[Feature::DefaultDeviceChange]);
    twice.set_features(&features);
    twice.set_features(&features);
    assert_eq!(once.enabled(), twice.enabled());
    for flag in [RAW, DEFAULT_DEVICE_CHANGE, MOVING_AVERAGE] {
        assert_eq!(once.get(&flag), twice.get(&flag));
    }
}

#[test]
fn a_request_replaces_the_one_before() {
    let mut store = FeatureStore::new();
    store.set_features(&[raw(1, 1), Feature::DefaultDeviceChange]);
    store.set_features(&[Feature::MovingAverage]);
    assert_eq!(store.enabled(), RAW | MOVING_AVERAGE);
    assert_eq!(store.get(&RAW), Some(&default_raw()));
    assert_eq!(store.get(&DEFAULT_DEVICE_CHANGE), None);
}

#[test]
fn contains_takes_masks_and_get_takes_single_flags() {
    let mut store = FeatureStore::new();
    store.set_features(&[raw(1, 1)]);
    assert!(store.contains(RAW | DEFAULT_DEVICE_CHANGE));
    assert!(store.contains(ALL));
    assert!(!store.contains(DEFAULT_DEVICE_CHANGE | MOVING_AVERAGE));
    assert!(!store.contains(NONE));
    assert!(!store.contains(8));
    assert_eq!(store.get(&(RAW | DEFAULT_DEVICE_CHANGE)), None);
    assert_eq!(store.get(&NONE), None);
    assert_eq!(store.get(&8), None);
}

#[test]
fn a_clone_holds_the_same() {
    let mut store = FeatureStore::new();
    store.set_features(&[Feature::MovingAverage]);
    let copy = store.clone();
    store.set_features(&[]);
    assert_eq!(copy.enabled(), RAW | MOVING_AVERAGE);
    assert_eq!(copy.get(&RAW), Some(&default_raw()));
}

#[test]
fn the_order_of_a_request_does_not_change_what_is_enabled() {
    let one = [Feature::MovingAverage, Feature::DefaultDeviceChange, raw(1, 1)];
    let other = [raw(1, 1), Feature::MovingAverage, raw(1, 1), Feature::DefaultDeviceChange];
    let mut first = FeatureStore::new();
    first.set_features(&one);
    let mut second = FeatureStore::new();
    second.set_features(&other);
    assert_eq!(first.enabled(), second.enabled());
    assert_eq!(first.enabled(), ALL);
}
