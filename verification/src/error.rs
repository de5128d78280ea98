//! The errors of the pipeline: what a caller can be told, and what a feature
//! can report while it is resolved or while it runs.

use vstd::prelude::*;
use vstd::std_specs::convert::IntoSpec;
use vstd::string::{to_string_from_display_ensures, StringExecFns};

verus! {

/// The classes of failure a caller can observe.
#[derive(Debug, Clone, Copy, PartialEq, Eq, Structural)]
pub enum AirapErrorKind {
    /// The device or the stream failed while reading.
    Io,
    /// The capture protocol failed: a context or a stream reached a failed or
    /// terminated state, or no source was found.
    Audio,
    /// A requested feature has no usable default for a dependency it implies.
    Feature,
    /// There is no capture backend for this platform.
    Unsupported,
}

/// An error with its class and a message for people.
#[derive(Debug)]
pub struct AirapError {
    pub kind: AirapErrorKind,
    pub message: String,
}

/// What can go wrong with a single feature.
#[derive(Debug, Clone, Copy, PartialEq, Eq, Structural)]
pub enum FeatureError {
    /// The flag names no feature that can be built with default settings.
    NoDefault(u32),
    /// The worker of the feature with this flag has stopped for good.
    WorkerTerminated(u32),
}

/// Whether `text` is `before`, then the number `flag` as it is displayed,
/// then `after`.
pub open spec fn names_flag(text: Seq<char>, before: Seq<char>, flag: u32, after: Seq<char>) -> bool {
    exists|number: String| #[trigger]
        to_string_from_display_ensures::<u32>(&flag, number) && text == before + number@ + after
}

/// `before`, then `flag` as a number, then `after`.
fn flag_message(before: &str, flag: u32, after: &str) -> (r: String)
    ensures
        names_flag(r@, before@, flag, after@),
{
    let number = flag.to_string();
    String::from_str(before).concat(number.as_str()).concat(after)
}

impl AirapError {
    /// An error of the given class; its message is what `message` converts
    /// into.
    pub fn new<S: Into<String>>(message: S, kind: AirapErrorKind) -> (r: AirapError)
        ensures
            r.kind == kind,
            call_ensures(<S as Into<String>>::into, (message,), r.message),
            S::obeys_into_spec() ==> r.message == message.into_spec(),
    {
        AirapError { message: message.into(), kind }
    }

    /// An error of the capture.
    pub fn audio<S: Into<String>>(message: S) -> (r: AirapError)
        ensures
            r.kind == AirapErrorKind::Audio,
            call_ensures(<S as Into<String>>::into, (message,), r.message),
            S::obeys_into_spec() ==> r.message == message.into_spec(),
    {
        Self::new(message, AirapErrorKind::Audio)
    }

    /// An error of the requested features.
    pub fn feature<S: Into<String>>(message: S) -> (r: AirapError)
        ensures
            r.kind == AirapErrorKind::Feature,
            call_ensures(<S as Into<String>>::into, (message,), r.message),
            S::obeys_into_spec() ==> r.message == message.into_spec(),
    {
        Self::new(message, AirapErrorKind::Feature)
    }

    /// An error for a platform without a capture backend.
    pub fn unsupported<S: Into<String>>(message: S) -> (r: AirapError)
        ensures
            r.kind == AirapErrorKind::Unsupported,
            call_ensures(<S as Into<String>>::into, (message,), r.message),
            S::obeys_into_spec() ==> r.message == message.into_spec(),
    {
        Self::new(message, AirapErrorKind::Unsupported)
    }

    /// An error of the given class whose message is the given text.
    pub fn with_text(text: &str, kind: AirapErrorKind) -> (r: AirapError)
        ensures
            r.kind == kind,
            r.message@ == text@,
    {
        AirapError { message: String::from_str(text), kind }
    }

    /// An I/O error for a failed read; `detail` is the account of the
    /// failure as the system gives it.
    pub fn io(detail: &str) -> (r: AirapError)
        ensures
            r.kind == AirapErrorKind::Io,
            r.message@ == "Failed to read input: "@ + detail@,
    {
        AirapError {
            kind: AirapErrorKind::Io,
            message: String::from_str("Failed to read input: ").concat(detail),
        }
    }

    /// An I/O error for a failure of the audio server; `detail` is the
    /// account of the failure as the backend gives it.
    pub fn backend(detail: &str) -> (r: AirapError)
        ensures
            r.kind == AirapErrorKind::Io,
            r.message@ == "Pulseaudio Error: "@ + detail@,
    {
        AirapError {
            kind: AirapErrorKind::Io,
            message: String::from_str("Pulseaudio Error: ").concat(detail),
        }
    }

    /// What a caller is told of a failed feature. That a flag has no default
    /// is an error of the request; that a worker has stopped is a failure of
    /// the capture. The message names the flag.
    pub fn from_feature_error(error: FeatureError) -> (r: AirapError)
        ensures
            match error {
                FeatureError::NoDefault(flag) => r.kind == AirapErrorKind::Feature && names_flag(
                    r.message@,
                    "feature flag '"@,
                    flag,
                    "' does not have a default implementation"@,
                ),
                FeatureError::WorkerTerminated(flag) => r.kind == AirapErrorKind::Audio
                    && names_flag(
                    r.message@,
                    "the worker of feature flag '"@,
                    flag,
                    "' has terminated"@,
                ),
            },
    {
        match error {
            FeatureError::NoDefault(flag) => AirapError {
                kind: AirapErrorKind::Feature,
                message: flag_message(
                    "feature flag '",
                    flag,
                    "' does not have a default implementation",
                ),
            },
            FeatureError::WorkerTerminated(flag) => AirapError {
                kind: AirapErrorKind::Audio,
                message: flag_message("the worker of feature flag '", flag, "' has terminated"),
            },
        }
    }

    /// The text shown for this error: a fixed prefix, then the message.
    pub fn to_string(&self) -> (r: String)
        ensures
            r@ == "Airap Error "@ + self.message@,
    {
        String::from_str("Airap Error ").concat(self.message.as_str())
    }
}

} // verus!
