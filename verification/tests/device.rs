use airap::audio::device::{SampleFormat, SampleSpec};
use airap::error::AirapErrorKind;
use airap::Device;

fn source(name: &str, monitor_of: Option<&str>) -> Device {
    Device::from_source(
        Some(name.to_string()),
        SampleSpec { format: SampleFormat::S16le, rate: 44100, channels: 2 },
        monitor_of.map(|sink| sink.to_string()),
    )
}

#[test]
fn a_source_is_captured_as_mono_floats_at_its_rate() {
    let device = Device::from_source(
        Some("alsa_input".to_string()),
        SampleSpec { format: SampleFormat::S24_32be, rate: 48000, channels: 6 },
        Some("alsa_output".to_string()),
    );
    assert_eq!(device.name, "alsa_input");
    assert_eq!(
        device.spec,
        SampleSpec { format: SampleFormat::F32le, rate: 48000, channels: 1 }
    );
    assert_eq!(device.monitor_of_sink_name, Some("alsa_output".to_string()));
}

#[test]
fn a_source_without_a_name_gets_the_empty_name() {
    let device = Device::from_source(
        None,
        SampleSpec { format: SampleFormat::U8, rate: 8000, channels: 1 },
        None,
    );
    assert_eq!(device.name, "");
    assert_eq!(device.monitor_of_sink_name, None);
    assert_eq!(device.spec.rate, 8000);
}

#[test]
fn a_device_monitors_the_sink_it_names() {
    let device = source("a.monitor", Some("a"));
    assert!(device.monitors(&"a".to_string()));
    assert!(!device.monitors(&"b".to_string()));
    assert!(!device.monitors(&"".to_string()));
    assert!(!source("mic", None).monitors(&"a".to_string()));
}

#[test]
fn the_default_is_the_first_monitor_of_the_default_sink() {
    let sources = vec![
        source("mic", None),
        source("b.monitor", Some("b")),
        source("a.monitor", Some("a")),
        source("a.second", Some("a")),
    ];
    let device = Device::select_default(Some("a".to_string()), sources).unwrap();
    assert_eq!(device.name, "a.monitor");
}

#[test]
fn no_monitor_of_the_default_sink_is_an_audio_error() {
    let sources = vec![source("mic", None), source("b.monitor", Some("b"))];
    let error = Device::select_default(Some("a".to_string()), sources).unwrap_err();
    assert_eq!(error.kind, AirapErrorKind::Audio);
    assert_eq!(error.message, "could not find monitor of default sink");
    let error = Device::select_default(Some("a".to_string()), vec![]).unwrap_err();
    assert_eq!(error.message, "could not find monitor of default sink");
}

#[test]
fn without_a_default_sink_the_first_source_is_taken() {
    let sources = vec![source("mic", None), source("a.monitor", Some("a"))];
    let device = Device::select_default(None, sources).unwrap();
    assert_eq!(device.name, "mic");
}

#[test]
fn no_source_at_all_is_an_audio_error() {
    let error = Device::select_default(None, vec![]).unwrap_err();
    assert_eq!(error.kind, AirapErrorKind::Audio);
    assert_eq!(error.message, "no sources found");
}

#[test]
fn a_cloned_device_is_the_same() {
    let device = source("a.monitor", Some("a"));
    let copy = device.clone();
    assert_eq!(copy.name, device.name);
    assert_eq!(copy.spec, device.spec);
    assert_eq!(copy.monitor_of_sink_name, device.monitor_of_sink_name);
}
