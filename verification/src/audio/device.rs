//! The device that the pipeline captures from.

use vstd::prelude::*;

use crate::error::{AirapError, AirapErrorKind};

verus! {

/// How one sample is encoded.
#[allow(non_camel_case_types)]
#[derive(Debug, Clone, Copy, PartialEq, Eq, Structural)]
pub enum SampleFormat {
    U8,
    ALaw,
    ULaw,
    S16le,
    S16be,
    F32le,
    F32be,
    S32le,
    S32be,
    S24le,
    S24be,
    S24_32le,
    S24_32be,
    Invalid,
}

/// The format, rate and channel count of a stream of samples.
#[derive(Debug, Clone, Copy, PartialEq, Eq, Structural)]
pub struct SampleSpec {
    pub format: SampleFormat,
    /// Samples per second.
    pub rate: u32,
    pub channels: u8,
}

/// A source to capture from.
#[derive(Debug)]
pub struct Device {
    pub name: String,
    pub spec: SampleSpec,
    /// The sink that this source monitors, where it is a monitor.
    pub monitor_of_sink_name: Option<String>,
}

impl Clone for Device {
    fn clone(&self) -> (r: Self)
        ensures
            r == *self,
    {
        Device {
            name: self.name.clone(),
            spec: self.spec,
            monitor_of_sink_name: self.monitor_of_sink_name.clone(),
        }
    }
}

/// Whether `sources[at]` monitors the sink `sink`, and no source before it does.
pub open spec fn is_first_monitor(sources: Seq<Device>, sink: Seq<char>, at: int) -> bool {
    &&& 0 <= at < sources.len()
    &&& sources[at].spec_monitors(sink)
    &&& forall|j: int| 0 <= j < at ==> !(#[trigger] sources[j]).spec_monitors(sink)
}

impl Device {
    /// Whether this source is the monitor of the sink `sink`.
    pub open spec fn spec_monitors(&self, sink: Seq<char>) -> bool {
        self.monitor_of_sink_name matches Some(name) && name@ == sink
    }

    /// The device for a source of the given name, rate and monitored sink,
    /// as the pipeline captures from it: one channel of 32-bit floats,
    /// little endian, at the rate of the source. A source without a name
    /// gets the empty name.
    pub fn from_source(
        name: Option<String>,
        sample_spec: SampleSpec,
        monitor_of_sink_name: Option<String>,
    ) -> (r: Device)
        ensures
            r.name@ == (match name {
                Some(given) => given@,
                None => Seq::<char>::empty(),
            }),
            r.spec == (SampleSpec {
                format: SampleFormat::F32le,
                rate: sample_spec.rate,
                channels: 1,
            }),
            r.monitor_of_sink_name == monitor_of_sink_name,
    {
        let name = match name {
            Some(given) => given,
            None => String::new(),
        };
        Device {
            name,
            spec: SampleSpec { format: SampleFormat::F32le, rate: sample_spec.rate, channels: 1 },
            monitor_of_sink_name,
        }
    }

    /// Whether this source is the monitor of the sink `sink`.
    pub fn monitors(&self, sink: &String) -> (r: bool)
        ensures
            r == self.spec_monitors(sink@),
    {
        match &self.monitor_of_sink_name {
            Some(name) => *name == *sink,
            None => false,
        }
    }

    /// The source to capture from by default. Where the server names a
    /// default sink, it is the first source that monitors that sink; where
    /// it names none, it is the first source. That there is no such source
    /// is an error of the capture.
    pub fn select_default(default_sink_name: Option<String>, sources: Vec<Device>) -> (r: Result<
        Device,
        AirapError,
    >)
        ensures
            match default_sink_name {
                Some(sink) => match r {
                    Ok(device) => exists|at: int|
                        is_first_monitor(sources@, sink@, at) && device == #[trigger] sources@[at],
                    Err(error) => error.kind == AirapErrorKind::Audio && error.message@
                        == "could not find monitor of default sink"@ && forall|j: int|
                        0 <= j < sources@.len() ==> !(#[trigger] sources@[j]).spec_monitors(sink@),
                },
                None => match r {
                    Ok(device) => sources@.len() > 0 && device == sources@[0],
                    Err(error) => error.kind == AirapErrorKind::Audio && error.message@
                        == "no sources found"@ && sources@.len() == 0,
                },
            },
    {
        let mut sources = sources;
        let ghost all = sources@;
        match default_sink_name {
            Some(sink) => {
                let mut at: usize = 0;
                let mut found = false;
                while at < sources.len() && !found
                    invariant
                        sources@ == all,
                        at <= sources.len(),
                        found ==> at < sources.len() && all[at as int].spec_monitors(sink@),
                        forall|j: int| 0 <= j < at ==> !(#[trigger] all[j]).spec_monitors(sink@),
                    decreases sources.len() - at + (if found { 0int } else { 1int }),
                {
                    if sources[at].monitors(&sink) {
                        found = true;
                    } else {
                        at += 1;
                    }
                }
                if found {
                    let device = sources.remove(at);
                    assert(is_first_monitor(all, sink@, at as int) && device == all[at as int]);
                    Ok(device)
                } else {
                    Err(
                        AirapError::with_text(
                            "could not find monitor of default sink",
                            AirapErrorKind::Audio,
                        ),
                    )
                }
            },
            None => {
                if sources.len() > 0 {
                    Ok(sources.remove(0))
                } else {
                    Err(AirapError::with_text("no sources found", AirapErrorKind::Audio))
                }
            },
        }
    }
}

} // verus!
