//! The features a caller can ask for, and the store that resolves a request
//! into the set of features that have to run.

use std::collections::HashMap;
use vstd::prelude::*;
use vstd::string::StringExecFns;

use crate::error::FeatureError;
use crate::feature::feature_flags::{
    holds, is_flag, lemma_single_flags, DEFAULT_DEVICE_CHANGE, MOVING_AVERAGE, NONE, RAW,
};
use crate::feature::resolution::{
    enabled_mask, lemma_resolve_consistent, requested_config, resolve, Resolution,
};

pub mod feature_flags;
pub mod resolution;

verus! {

/// The settings of raw capture.
#[derive(Debug, Clone, Copy, PartialEq, Eq, Structural)]
pub struct RawFeature {
    /// The latency to aim for, in microseconds (5000 is 5 ms).
    pub buffer_latency: u32,
}

impl Default for RawFeature {
    fn default() -> (r: Self)
        ensures
            r.buffer_latency == 5000,
    {
        Self { buffer_latency: 5000 }
    }
}

/// One capability of the pipeline, with its settings.
#[derive(Debug, Clone, Copy, PartialEq, Eq, Structural)]
pub enum Feature {
    /// The samples as they are captured.
    Raw {
        /// The latency to aim for, in microseconds.
        buffer_latency: u32,
        down_sampling_rate: u32,
    },
    /// A notice that the default output device has changed.
    DefaultDeviceChange,
    /// The mean of each raw buffer.
    MovingAverage,
}

/// The feature that `flag` names, with its default settings, where there is one.
pub open spec fn default_of(flag: u32) -> Option<Feature> {
    if flag == RAW {
        Some(Feature::Raw { buffer_latency: 5000, down_sampling_rate: 0 })
    } else if flag == DEFAULT_DEVICE_CHANGE {
        Some(Feature::DefaultDeviceChange)
    } else if flag == MOVING_AVERAGE {
        Some(Feature::MovingAverage)
    } else {
        None
    }
}

/// The flags that the feature named by `flag` depends on; nothing for a mask
/// that names no feature.
pub open spec fn dependencies_of(flag: u32) -> u32 {
    match default_of(flag) {
        Some(feature) => feature.spec_dependencies(),
        None => NONE,
    }
}

impl Feature {
    /// The flag of this feature: one bit, the same for every setting.
    pub open spec fn spec_to_flag(&self) -> u32 {
        match self {
            Feature::Raw { .. } => RAW,
            Feature::DefaultDeviceChange => DEFAULT_DEVICE_CHANGE,
            Feature::MovingAverage => MOVING_AVERAGE,
        }
    }

    /// The flags of the features this one cannot run without.
    pub open spec fn spec_dependencies(&self) -> u32 {
        match self {
            Feature::Raw { .. } => NONE,
            Feature::DefaultDeviceChange => NONE,
            Feature::MovingAverage => RAW,
        }
    }

    /// The name of this feature, as its worker carries it.
    pub open spec fn spec_name(&self) -> Seq<char> {
        match self {
            Feature::Raw { .. } => "raw"@,
            Feature::DefaultDeviceChange => "default_device_change"@,
            Feature::MovingAverage => "moving_average"@,
        }
    }

    /// The feature that `flag` names, with its default settings. A mask that
    /// is not the flag of one feature has no default.
    pub fn default(flag: u32) -> (r: Result<Feature, FeatureError>)
        ensures
            r == match default_of(flag) {
                Some(feature) => Ok::<Feature, FeatureError>(feature),
                None => Err(FeatureError::NoDefault(flag)),
            },
    {
        if flag == RAW {
            Ok(Feature::Raw { buffer_latency: 5000, down_sampling_rate: 0 })
        } else if flag == DEFAULT_DEVICE_CHANGE {
            Ok(Feature::DefaultDeviceChange)
        } else if flag == MOVING_AVERAGE {
            Ok(Feature::MovingAverage)
        } else {
            Err(FeatureError::NoDefault(flag))
        }
    }

    #[verifier::when_used_as_spec(spec_dependencies)]
    pub fn dependencies(&self) -> (r: u32)
        ensures
            r == self.spec_dependencies(),
    {
        match self {
            Feature::Raw { .. } => NONE,
            Feature::DefaultDeviceChange => NONE,
            Feature::MovingAverage => RAW,
        }
    }

    #[verifier::when_used_as_spec(spec_to_flag)]
    pub fn to_flag(&self) -> (r: u32)
        ensures
            r == self.spec_to_flag(),
    {
        match self {
            Feature::Raw { .. } => RAW,
            Feature::DefaultDeviceChange => DEFAULT_DEVICE_CHANGE,
            Feature::MovingAverage => MOVING_AVERAGE,
        }
    }

    pub fn to_string(&self) -> (r: String)
        ensures
            r@ == self.spec_name(),
    {
        match self {
            Feature::Raw { .. } => String::from_str("raw"),
            Feature::DefaultDeviceChange => String::from_str("default_device_change"),
            Feature::MovingAverage => String::from_str("moving_average"),
        }
    }
}

/// Keeps what a request resolves to: which features have to run, and with
/// which settings.
#[derive(Debug)]
pub struct FeatureStore {
    store: HashMap<u32, Feature>,
    enabled_features: u32,
}

impl View for FeatureStore {
    type V = Resolution;

    closed spec fn view(&self) -> Resolution {
        Resolution { enabled: self.enabled_features, configs: self.store@ }
    }
}

/// The flags that get a default configuration when they are enabled without
/// having been requested, in the order in which the store looks at them.
spec fn flags_in_order() -> Seq<u32> {
    seq![RAW, DEFAULT_DEVICE_CHANGE, MOVING_AVERAGE]
}

/// What the store holds for `flag` once the first `done` flags have been
/// given their default.
spec fn config_after(features: Seq<Feature>, done: int, flag: u32) -> Option<Feature> {
    match requested_config(features, flag) {
        Some(feature) => Some(feature),
        None => if holds(enabled_mask(features), flag) && exists|k: int|
            0 <= k < done && #[trigger] flags_in_order()[k] == flag {
            default_of(flag)
        } else {
            None
        },
    }
}

impl Clone for FeatureStore {
    fn clone(&self) -> (r: Self)
        ensures
            r@ == self@,
    {
        proof {
            use_type_invariant(self);
        }
        FeatureStore { store: self.store.clone(), enabled_features: self.enabled_features }
    }
}

impl FeatureStore {
    #[verifier::type_invariant]
    spec fn well_formed(&self) -> bool {
        self@.consistent()
    }

    /// A store in which nothing is enabled.
    pub fn new() -> (r: Self)
        ensures
            r@.enabled == NONE,
            r@.configs == Map::<u32, Feature>::empty(),
            r@ == resolve(Seq::<Feature>::empty()),
    {
        proof {
            lemma_resolve_consistent(Seq::<Feature>::empty());
            assert forall|flag: u32| !holds(NONE, flag) by {
                lemma_single_flags(flag);
            }
            assert(resolve(Seq::<Feature>::empty()).configs =~= Map::<u32, Feature>::empty());
        }
        Self { store: HashMap::new(), enabled_features: NONE }
    }

    /// Replaces what the store holds by what `features` resolves to: the
    /// requested features with their settings, the last request for a flag
    /// winning, and each feature they depend on with its default settings.
    pub fn set_features(&mut self, features: &[Feature])
        ensures
            final(self)@ == resolve(features@),
            final(self)@ == old(self)@.subscribe(features@),
    {
        broadcast use vstd::std_specs::hash::group_hash_axioms;

        let ghost request = features@;
        let mut store: HashMap<u32, Feature> = HashMap::new();
        let mut enabled: u32 = NONE;
        let mut i: usize = 0;
        while i < features.len()
            invariant
                i <= features.len(),
                request == features@,
                enabled == enabled_mask(request.take(i as int)),
                forall|flag: u32|
                    store@.contains_key(flag) <==> #[trigger] requested_config(
                        request.take(i as int),
                        flag,
                    ) is Some,
                forall|flag: u32|
                    store@.contains_key(flag) ==> #[trigger] requested_config(
                        request.take(i as int),
                        flag,
                    ) == Some(store@[flag]),
            decreases features.len() - i,
        {
            let feature = features[i];
            let flag = feature.to_flag();
            let ghost before = store@;
            enabled = enabled | (flag | feature.dependencies());
            store.insert(flag, feature);
            proof {
                let shorter = request.take(i as int);
                let longer = request.take(i + 1);
                assert(longer.drop_last() =~= shorter);
                assert(longer.last() == feature);
                assert forall|other: u32|
                    store@.contains_key(other) <==> #[trigger] requested_config(longer, other)
                        is Some by {
                    assert(before.contains_key(other) <==> requested_config(shorter, other)
                        is Some);
                }
                assert forall|other: u32| store@.contains_key(other) implies #[trigger] requested_config(
                    longer,
                    other,
                ) == Some(store@[other]) by {
                    assert(before.contains_key(other) ==> requested_config(shorter, other) == Some(
                        before[other],
                    ));
                }
            }
            i += 1;
        }
        proof {
            assert(request.take(i as int) =~= request);
        }
        let order: [u32; 3] = [RAW, DEFAULT_DEVICE_CHANGE, MOVING_AVERAGE];
        assert(order@ =~= flags_in_order());
        let mut k: usize = 0;
        while k < 3
            invariant
                k <= 3,
                order@ == flags_in_order(),
                enabled == enabled_mask(request),
                forall|flag: u32|
                    store@.contains_key(flag) <==> #[trigger] config_after(request, k as int, flag)
                        is Some,
                forall|flag: u32|
                    store@.contains_key(flag) ==> #[trigger] config_after(request, k as int, flag)
                        == Some(store@[flag]),
            decreases 3 - k,
        {
            let flag = order[k];
            let ghost before = store@;
            if enabled & flag != 0 && !store.contains_key(&flag) {
                if let Ok(feature) = Feature::default(flag) {
                    store.insert(flag, feature);
                }
            }
            proof {
                assert forall|other: u32|
                    store@.contains_key(other) <==> #[trigger] config_after(
                        request,
                        k + 1,
                        other,
                    ) is Some by {
                    assert(before.contains_key(other) <==> config_after(request, k as int, other)
                        is Some);
                    if other == flag {
                        assert(flags_in_order()[k as int] == flag);
                    }
                }
                assert forall|other: u32| store@.contains_key(other) implies #[trigger] config_after(
                    request,
                    k + 1,
                    other,
                ) == Some(store@[other]) by {
                    assert(before.contains_key(other) ==> config_after(request, k as int, other)
                        == Some(before[other]));
                    if other == flag {
                        assert(flags_in_order()[k as int] == flag);
                    }
                }
            }
            k += 1;
        }
        proof {
            lemma_resolve_consistent(request);
            assert forall|flag: u32| #[trigger]
                store@.contains_key(flag) <==> resolve(request).configs.contains_key(flag) by {
                assert(store@.contains_key(flag) <==> config_after(request, 3, flag) is Some);
                if is_flag(flag) {
                    assert(flags_in_order()[0] == RAW);
                    assert(flags_in_order()[1] == DEFAULT_DEVICE_CHANGE);
                    assert(flags_in_order()[2] == MOVING_AVERAGE);
                }
            }
            assert forall|flag: u32| #[trigger] store@.contains_key(flag) implies store@[flag]
                == resolve(request).configs[flag] by {
                assert(config_after(request, 3, flag) == Some(store@[flag]));
            }
            assert(store@ =~= resolve(request).configs);
        }
        *self = FeatureStore { store, enabled_features: enabled };
    }

    /// The configuration kept for `flag`. There is one exactly for the flag
    /// of an enabled feature; a mask of several flags has none.
    pub fn get(&self, flag: &u32) -> (r: Option<&Feature>)
        ensures
            self@.consistent(),
            r is Some <==> self@.configs.contains_key(*flag),
            r is Some <==> is_flag(*flag) && holds(self@.enabled, *flag),
            r matches Some(feature) ==> *feature == self@.configs[*flag]
                && feature.spec_to_flag() == *flag,
    {
        broadcast use vstd::std_specs::hash::group_hash_axioms;

        proof {
            use_type_invariant(self);
        }
        self.store.get(flag)
    }

    /// The mask of the enabled features. It is closed under dependencies,
    /// and the store keeps a configuration for each of its flags.
    pub fn enabled(&self) -> (r: u32)
        ensures
            r == self@.enabled,
            self@.consistent(),
    {
        proof {
            use_type_invariant(self);
        }
        self.enabled_features
    }

    /// Whether one of the features that `flag` names is enabled.
    #[inline]
    pub fn contains(&self, flag: u32) -> (r: bool)
        ensures
            r == holds(self@.enabled, flag),
    {
        self.enabled_features & flag != 0
    }
}

} // verus!
