//! Feature resolution and event routing for a live audio capture pipeline.
//!
//! A caller asks for features; the [`feature`] store resolves the request
//! into the features that have to run, each with its settings. The [`pool`]
//! says which workers that needs and what a derived worker computes, and
//! the [`dispatch`] loop decides what happens to every event and failure
//! that the workers publish. The [`pipeline`] module shows, on a model of
//! all of them together, in which order the callback sees the events.
//! Capture itself, the threads and the channels are the business of the
//! program around this library; [`audio`] holds what they need decided.

pub mod audio;
pub mod dispatch;
pub mod error;
pub mod event;
pub mod feature;
pub mod latency;
pub mod pipeline;
pub mod pool;
pub mod runner;

pub use audio::device::Device;
pub use event::{Event, MovingAverageEvent, RawEvent};
pub use runner::{Options, Runner, ThreadContext};
