use airap::audio::device::{SampleFormat, SampleSpec};
use airap::error::{AirapError, AirapErrorKind};
use airap::feature::feature_flags::{MOVING_AVERAGE, NONE, RAW};
use airap::feature::Feature;
use airap::latency::{Instant, Latency, MicroSeconds};
use airap::{Device, Options, Runner, ThreadContext};

fn device(name: &str) -> Device {
    Device::from_source(
        Some(name.to_string()),
        SampleSpec { format: SampleFormat::F32le, rate: 44100, channels: 1 },
        None,
    )
}

fn behind(micros: u64) -> Latency {
    Latency { internal: Instant::Positive(MicroSeconds(micros)), airap: Instant::NotMeasured }
}

#[test]
fn the_default_bound_is_five_milliseconds() {
    assert_eq!(Options::default().max_latency(), MicroSeconds(5000));
}

#[test]
fn a_buffer_is_stale_beyond_the_bound() {
    let options = Options::default();
    assert!(!options.is_stale(behind(0)));
    assert!(!options.is_stale(behind(4999)));
    assert!(!options.is_stale(behind(5000)));
    assert!(options.is_stale(behind(5001)));
    assert!(options.is_stale(behind(u64::MAX)));
}

#[test]
fn a_buffer_that_is_ahead_or_unmeasured_is_not_stale() {
    let options = Options::default();
    assert!(!options.is_stale(Latency::unmeasured()));
    assert!(!options.is_stale(Latency {
        internal: Instant::Negative(MicroSeconds(9000)),
        airap: Instant::NotMeasured,
    }));
    assert!(!options.is_stale(Latency {
        internal: Instant::NotMeasured,
        airap: Instant::Positive(MicroSeconds(9000)),
    }));
}

#[test]
fn a_new_runner_has_no_device_and_no_feature() {
    let runner = Runner::new();
    assert!(runner.device().is_none());
    assert_eq!(runner.feature_store().enabled(), NONE);
}

#[test]
fn set_device_keeps_the_request() {
    let mut runner = Runner::new();
    runner.subscribe(&[Feature::MovingAverage]).unwrap();
    runner.set_device(device("a.monitor"));
    assert_eq!(runner.device().unwrap().name, "a.monitor");
    assert_eq!(runner.feature_store().enabled(), RAW | MOVING_AVERAGE);
}

#[test]
fn subscribe_resolves_the_request_and_can_be_chained() {
    let mut runner = Runner::new();
    runner.set_device(device("mic"));
    let chained = runner
        .subscribe(&[Feature::DefaultDeviceChange])
        .unwrap()
        .subscribe(&[Feature::MovingAverage])
        .unwrap();
    assert_eq!(chained.feature_store().enabled(), RAW | MOVING_AVERAGE);
    assert_eq!(runner.feature_store().enabled(), RAW | MOVING_AVERAGE);
    assert_eq!(
        runner.feature_store().get(&RAW),
        Some(&Feature::Raw { buffer_latency: 5000, down_sampling_rate: 0 })
    );
    assert_eq!(runner.device().unwrap().name, "mic");
}

#[test]
fn subscribing_twice_is_the_same_as_once() {
    let features = [Feature::MovingAverage];
    let mut once = Runner::new();
    once.subscribe(&features).unwrap();
    let mut twice = Runner::new();
    twice.subscribe(&features).unwrap();
    twice.subscribe(&features).unwrap();
    assert_eq!(once.feature_store().enabled(), twice.feature_store().enabled());
    for flag in [RAW, 2, MOVING_AVERAGE] {
        assert_eq!(once.feature_store().get(&flag), twice.feature_store().get(&flag));
    }
}

#[test]
fn the_context_takes_the_device_that_was_set() {
    let mut runner = Runner::new();
    runner.set_device(device("chosen"));
    let context = runner
        .context(|| -> Result<Device, AirapError> { panic!("the default is not asked for") })
        .unwrap();
    assert_eq!(context.device().name, "chosen");
}

#[test]
fn the_context_falls_back_to_the_default_device() {
    let runner = Runner::new();
    let context = runner.context(|| Ok(device("default"))).unwrap();
    assert_eq!(context.device().name, "default");
}

#[test]
fn the_context_fails_as_the_default_device_does() {
    let runner = Runner::new();
    let error = runner.context(|| Err(AirapError::audio("no sources found"))).unwrap_err();
    assert_eq!(error.kind, AirapErrorKind::Audio);
    assert_eq!(error.message, "no sources found");
}

#[test]
fn a_context_holds_its_device() {
    let context = ThreadContext::new(device("a.monitor"));
    assert_eq!(context.device().name, "a.monitor");
    assert_eq!(context.clone().device().name, "a.monitor");
    assert_eq!(context.device().spec.channels, 1);
}
