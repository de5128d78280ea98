//! The entry point of the pipeline: the device to capture from and the
//! features that were asked for.

use vstd::prelude::*;

use crate::audio::device::Device;
use crate::error::AirapError;
use crate::feature::feature_flags::NONE;
use crate::feature::resolution::{resolve, Resolution};
use crate::feature::{Feature, FeatureStore};
use crate::latency::{Instant, Latency, MicroSeconds};

verus! {

/// The settings of a pipeline.
#[derive(Debug, Clone, Copy)]
pub struct Options {
    max_latency: MicroSeconds,
}

impl Default for Options {
    fn default() -> (r: Self)
        ensures
            r.spec_max_latency() == MicroSeconds(5000),
    {
        Self { max_latency: MicroSeconds(5000) }
    }
}

impl Options {
    /// The latency beyond which a buffer is stale.
    pub closed spec fn spec_max_latency(&self) -> MicroSeconds {
        self.max_latency
    }

    /// Whether a buffer with this latency is stale: it was measured to be
    /// behind real time by more than the bound. A buffer that is ahead, or
    /// whose latency was not measured, is not stale.
    pub open spec fn spec_is_stale(&self, latency: Latency) -> bool {
        latency.internal matches Instant::Positive(behind) && behind.0
            > self.spec_max_latency().0
    }

    /// The latency beyond which a buffer is stale.
    #[verifier::when_used_as_spec(spec_max_latency)]
    pub fn max_latency(&self) -> (r: MicroSeconds)
        ensures
            r == self.spec_max_latency(),
    {
        self.max_latency
    }

    /// Whether a buffer with this latency is stale.
    #[verifier::when_used_as_spec(spec_is_stale)]
    pub fn is_stale(&self, latency: Latency) -> (r: bool)
        ensures
            r == self.spec_is_stale(latency),
    {
        match latency.internal {
            Instant::Positive(behind) => behind.0 > self.max_latency.0,
            _ => false,
        }
    }
}

/// What every worker is given when it starts.
#[derive(Debug)]
pub struct ThreadContext {
    device: Device,
}

impl Clone for ThreadContext {
    fn clone(&self) -> (r: Self)
        ensures
            r == *self,
    {
        ThreadContext { device: self.device.clone() }
    }
}

impl ThreadContext {
    /// The device that the workers capture from.
    pub closed spec fn spec_device(&self) -> Device {
        self.device
    }

    pub fn new(device: Device) -> (r: Self)
        ensures
            r.spec_device() == device,
    {
        ThreadContext { device }
    }

    /// The device that the workers capture from.
    pub fn device(&self) -> (r: &Device)
        ensures
            *r == self.spec_device(),
    {
        &self.device
    }
}

/// Holds what a caller has asked for until the pipeline is started.
pub struct Runner {
    device: Option<Device>,
    feature_store: FeatureStore,
}

impl Runner {
    /// The device that was set, if one was.
    pub closed spec fn spec_device(&self) -> Option<Device> {
        self.device
    }

    /// What the last request resolves to.
    pub closed spec fn spec_store(&self) -> Resolution {
        self.feature_store@
    }

    /// A runner without a device, on which nothing is enabled.
    pub fn new() -> (r: Self)
        ensures
            r.spec_device() is None,
            r.spec_store().enabled == NONE,
            r.spec_store().configs == Map::<u32, Feature>::empty(),
    {
        Self { device: None, feature_store: FeatureStore::new() }
    }

    /// Sets the device to capture from, in place of the default one.
    pub fn set_device(&mut self, device: Device)
        ensures
            final(self).spec_device() == Some(device),
            final(self).spec_store() == old(self).spec_store(),
    {
        self.device = Some(device);
    }

    /// Replaces the request by `features` and resolves it. The device stays
    /// as it is. This cannot fail: every feature depends only on features
    /// that have default settings.
    pub fn subscribe(&mut self, features: &[Feature]) -> (r: Result<&mut Self, AirapError>)
        ensures
            r matches Ok(runner) && runner.spec_store() == resolve(features@)
                && runner.spec_device() == old(self).spec_device()
                && *final(self) == *final(runner),
    {
        self.feature_store.set_features(features);
        Ok(self)
    }

    /// The device that was set, if one was.
    pub fn device(&self) -> (r: Option<&Device>)
        ensures
            match r {
                Some(device) => self.spec_device() == Some(*device),
                None => self.spec_device() is None,
            },
    {
        self.device.as_ref()
    }

    /// What the last request resolved to.
    pub fn feature_store(&self) -> (r: &FeatureStore)
        ensures
            r@ == self.spec_store(),
    {
        &self.feature_store
    }

    /// What the workers are given when the pipeline starts: the device that
    /// was set, or, where none was, the one that `resolve_default` finds;
    /// its failure is the failure of the start.
    pub fn context<F: FnOnce() -> Result<Device, AirapError>>(&self, resolve_default: F) -> (r:
        Result<ThreadContext, AirapError>)
        requires
            call_requires(resolve_default, ()),
        ensures
            match self.spec_device() {
                Some(device) => r matches Ok(context) && context.spec_device() == device,
                None => match r {
                    Ok(context) => call_ensures(
                        resolve_default,
                        (),
                        Ok::<Device, AirapError>(context.spec_device()),
                    ),
                    Err(error) => call_ensures(
                        resolve_default,
                        (),
                        Err::<Device, AirapError>(error),
                    ),
                },
            },
    {
        match &self.device {
            Some(device) => Ok(ThreadContext::new(device.clone())),
            None => match resolve_default() {
                Ok(device) => Ok(ThreadContext::new(device)),
                Err(error) => Err(error),
            },
        }
    }
}

} // verus!
