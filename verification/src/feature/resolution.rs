//! What a request resolves to: the mask of the features that have to run and
//! the configuration of each, with the laws that hold of both.

use vstd::prelude::*;

use crate::feature::feature_flags::{
    holds, is_flag, lemma_flags_distinct, lemma_holds_union, lemma_single_flags,
    lemma_within_union, within, ALL, DEFAULT_DEVICE_CHANGE, MOVING_AVERAGE, NONE, RAW,
};
use crate::feature::{default_of, dependencies_of, Feature};

verus! {

/// The state of a feature store: the mask of the enabled features and the
/// configuration kept for each flag.
pub struct Resolution {
    pub enabled: u32,
    pub configs: Map<u32, Feature>,
}

/// The flags of all requested features together with the flags they depend on.
pub open spec fn enabled_mask(features: Seq<Feature>) -> u32
    decreases features.len(),
{
    if features.len() == 0 {
        NONE
    } else {
        enabled_mask(features.drop_last()) | (features.last().spec_to_flag()
            | features.last().spec_dependencies())
    }
}

/// The configuration that the request gives for `flag`: that of the last
/// requested feature with this flag.
pub open spec fn requested_config(features: Seq<Feature>, flag: u32) -> Option<Feature>
    decreases features.len(),
{
    if features.len() == 0 {
        None
    } else if features.last().spec_to_flag() == flag {
        Some(features.last())
    } else {
        requested_config(features.drop_last(), flag)
    }
}

/// The configuration that the store keeps for `flag`: the requested one, or
/// the default where the flag is enabled only as a dependency.
pub open spec fn resolved_config(features: Seq<Feature>, flag: u32) -> Option<Feature> {
    match requested_config(features, flag) {
        Some(feature) => Some(feature),
        None => if is_flag(flag) && holds(enabled_mask(features), flag) {
            default_of(flag)
        } else {
            None
        },
    }
}

/// What a request resolves to.
pub open spec fn resolve(features: Seq<Feature>) -> Resolution {
    Resolution {
        enabled: enabled_mask(features),
        configs: Map::new(
            |flag: u32| resolved_config(features, flag) is Some,
            |flag: u32| resolved_config(features, flag).unwrap(),
        ),
    }
}

/// Whether `mask` holds, with each feature, the features it depends on.
pub open spec fn closed_under_dependencies(mask: u32) -> bool {
    forall|flag: u32|
        is_flag(flag) && #[trigger] holds(mask, flag) ==> within(dependencies_of(flag), mask)
}

/// Whether `mask` holds the flag of every feature of the request.
pub open spec fn holds_all_requested(mask: u32, features: Seq<Feature>) -> bool {
    forall|i: int| 0 <= i < features.len() ==> holds(mask, #[trigger] features[i].spec_to_flag())
}

impl Resolution {
    /// The store keeps a configuration for exactly the enabled features, each
    /// under its own flag, and enables nothing that is not a feature.
    pub open spec fn consistent(self) -> bool {
        &&& within(self.enabled, ALL)
        &&& closed_under_dependencies(self.enabled)
        &&& forall|flag: u32| #[trigger]
            self.configs.contains_key(flag) <==> is_flag(flag) && holds(self.enabled, flag)
        &&& forall|flag: u32| #[trigger]
            self.configs.contains_key(flag) ==> self.configs[flag].spec_to_flag() == flag
    }

    /// The state after a request for `features`, whatever the state before.
    pub open spec fn subscribe(self, features: Seq<Feature>) -> Resolution {
        resolve(features)
    }
}

/// Every feature has one of the three flags, whatever its settings, and
/// that flag has a default with the same dependencies. What a feature
/// depends on, if anything, is a feature that has a default.
pub proof fn lemma_feature_flags(feature: Feature)
    ensures
        is_flag(feature.spec_to_flag()),
        holds(feature.spec_to_flag(), feature.spec_to_flag()),
        within(feature.spec_to_flag(), ALL),
        within(feature.spec_dependencies(), ALL),
        default_of(feature.spec_to_flag()) is Some,
        dependencies_of(feature.spec_to_flag()) == feature.spec_dependencies(),
        feature.spec_dependencies() != NONE ==> default_of(feature.spec_dependencies()) is Some,
        forall|flag: u32|
            is_flag(flag) && #[trigger] holds(feature.spec_to_flag(), flag) ==> flag
                == feature.spec_to_flag(),
{
    lemma_flags_distinct();
    lemma_single_flags(RAW);
}

/// The enabled mask holds nothing but flags of features.
pub proof fn lemma_enabled_within_all(features: Seq<Feature>)
    ensures
        within(enabled_mask(features), ALL),
    decreases features.len(),
{
    lemma_flags_distinct();
    if features.len() > 0 {
        let last = features.last();
        lemma_enabled_within_all(features.drop_last());
        lemma_feature_flags(last);
        lemma_within_union(last.spec_to_flag(), last.spec_dependencies(), ALL);
        lemma_within_union(
            enabled_mask(features.drop_last()),
            last.spec_to_flag() | last.spec_dependencies(),
            ALL,
        );
    }
}

/// A flag is enabled exactly when a requested feature has it or depends on it.
pub proof fn lemma_enabled_iff_caused(features: Seq<Feature>, flag: u32)
    ensures
        holds(enabled_mask(features), flag) <==> exists|i: int|
            0 <= i < features.len() && (holds((#[trigger] features[i]).spec_to_flag(), flag)
                || holds(features[i].spec_dependencies(), flag)),
    decreases features.len(),
{
    if features.len() == 0 {
        lemma_single_flags(flag);
    } else {
        let init = features.drop_last();
        let last = features.last();
        lemma_enabled_iff_caused(init, flag);
        lemma_holds_union(last.spec_to_flag(), last.spec_dependencies(), flag);
        lemma_holds_union(enabled_mask(init), last.spec_to_flag() | last.spec_dependencies(), flag);
        if holds(enabled_mask(features), flag) {
            if holds(enabled_mask(init), flag) {
                let i = choose|i: int|
                    0 <= i < init.len() && (holds((#[trigger] init[i]).spec_to_flag(), flag)
                        || holds(init[i].spec_dependencies(), flag));
                assert(features[i] == init[i]);
            } else {
                assert(features[features.len() - 1] == last);
            }
        }
        if exists|i: int|
            0 <= i < features.len() && (holds((#[trigger] features[i]).spec_to_flag(), flag)
                || holds(features[i].spec_dependencies(), flag)) {
            let i = choose|i: int|
                0 <= i < features.len() && (holds((#[trigger] features[i]).spec_to_flag(), flag)
                    || holds(features[i].spec_dependencies(), flag));
            if i < init.len() {
                assert(init[i] == features[i]);
            }
        }
    }
}

/// Which features are enabled depends on which features are requested, not
/// on their order nor on how often each is named.
pub proof fn lemma_enabled_depends_on_set(first: Seq<Feature>, second: Seq<Feature>)
    requires
        first.to_set() == second.to_set(),
    ensures
        enabled_mask(first) == enabled_mask(second),
{
    let a = enabled_mask(first);
    let b = enabled_mask(second);
    assert forall|flag: u32| holds(a, flag) == holds(b, flag) by {
        lemma_enabled_iff_caused(first, flag);
        lemma_enabled_iff_caused(second, flag);
        if holds(a, flag) {
            let i = choose|i: int|
                0 <= i < first.len() && (holds((#[trigger] first[i]).spec_to_flag(), flag)
                    || holds(first[i].spec_dependencies(), flag));
            assert(first.to_set().contains(first[i]));
            assert(second.contains(first[i]));
            let j = choose|j: int| 0 <= j < second.len() && second[j] == first[i];
            assert(second[j] == first[i]);
        }
        if holds(b, flag) {
            let i = choose|i: int|
                0 <= i < second.len() && (holds((#[trigger] second[i]).spec_to_flag(), flag)
                    || holds(second[i].spec_dependencies(), flag));
            assert(second.to_set().contains(second[i]));
            assert(first.contains(second[i]));
            let j = choose|j: int| 0 <= j < first.len() && first[j] == second[i];
            assert(first[j] == second[i]);
        }
    }
    lemma_enabled_within_all(first);
    lemma_enabled_within_all(second);
    assert(holds(a, RAW) == holds(b, RAW));
    assert(holds(a, DEFAULT_DEVICE_CHANGE) == holds(b, DEFAULT_DEVICE_CHANGE));
    assert(holds(a, MOVING_AVERAGE) == holds(b, MOVING_AVERAGE));
    assert(a & !7u32 == 0 && b & !7u32 == 0 && (a & 1u32 != 0) == (b & 1u32 != 0) && (a & 2u32
        != 0) == (b & 2u32 != 0) && (a & 4u32 != 0) == (b & 4u32 != 0) ==> a == b)
        by (bit_vector);
}

/// A flag has a requested configuration exactly when a requested feature has
/// that flag, and the configuration is then that of the last such feature.
pub proof fn lemma_requested_config(features: Seq<Feature>, flag: u32)
    ensures
        requested_config(features, flag) is Some <==> exists|i: int|
            0 <= i < features.len() && (#[trigger] features[i]).spec_to_flag() == flag,
        requested_config(features, flag) matches Some(feature) ==> exists|i: int|
            0 <= i < features.len() && #[trigger] features[i] == feature
                && feature.spec_to_flag() == flag && forall|j: int|
                i < j < features.len() ==> (#[trigger] features[j]).spec_to_flag() != flag,
    decreases features.len(),
{
    if features.len() > 0 {
        let init = features.drop_last();
        let last = features.last();
        lemma_requested_config(init, flag);
        if last.spec_to_flag() == flag {
            assert(features[features.len() - 1] == last);
        } else {
            if requested_config(init, flag) is Some {
                let feature = requested_config(init, flag)->Some_0;
                let i = choose|i: int|
                    0 <= i < init.len() && #[trigger] init[i] == feature && feature.spec_to_flag()
                        == flag && forall|j: int|
                        i < j < init.len() ==> (#[trigger] init[j]).spec_to_flag() != flag;
                assert(features[i] == feature);
                assert forall|j: int| i < j < features.len() implies (
                #[trigger] features[j]).spec_to_flag() != flag by {
                    if j < init.len() {
                        assert(init[j] == features[j]);
                    }
                }
            }
            if exists|i: int|
                0 <= i < features.len() && (#[trigger] features[i]).spec_to_flag() == flag {
                let i = choose|i: int|
                    0 <= i < features.len() && (#[trigger] features[i]).spec_to_flag() == flag;
                assert(init[i] == features[i]);
            }
        }
    }
}

/// The enabled mask is the closure of the request under dependencies: it
/// holds every requested flag, it holds with each feature the features that
/// one depends on, and it lies within every mask of which both are true.
/// It holds no bit that is not a feature's flag.
pub proof fn lemma_enabled_is_closure(features: Seq<Feature>, other: u32)
    ensures
        holds_all_requested(enabled_mask(features), features),
        closed_under_dependencies(enabled_mask(features)),
        within(enabled_mask(features), ALL),
        holds_all_requested(other, features) && closed_under_dependencies(other) ==> within(
            enabled_mask(features),
            other,
        ),
    decreases features.len(),
{
    let mask = enabled_mask(features);
    lemma_enabled_within_all(features);
    lemma_flags_distinct();
    lemma_single_flags(mask);
    lemma_single_flags(other);
    assert forall|i: int| 0 <= i < features.len() implies holds(
        mask,
        #[trigger] features[i].spec_to_flag(),
    ) by {
        lemma_feature_flags(features[i]);
        lemma_enabled_iff_caused(features, features[i].spec_to_flag());
    }
    assert forall|flag: u32| is_flag(flag) && #[trigger] holds(mask, flag) implies within(
        dependencies_of(flag),
        mask,
    ) by {
        if flag == MOVING_AVERAGE {
            lemma_enabled_iff_caused(features, MOVING_AVERAGE);
            let i = choose|i: int|
                0 <= i < features.len() && (holds(
                    (#[trigger] features[i]).spec_to_flag(),
                    MOVING_AVERAGE,
                ) || holds(features[i].spec_dependencies(), MOVING_AVERAGE));
            lemma_feature_flags(features[i]);
            lemma_single_flags(MOVING_AVERAGE);
            assert(features[i] is MovingAverage);
            lemma_enabled_iff_caused(features, RAW);
        }
    }
    if holds_all_requested(other, features) && closed_under_dependencies(other) {
        if features.len() > 0 {
            let init = features.drop_last();
            let last = features.last();
            assert forall|i: int| 0 <= i < init.len() implies holds(
                other,
                #[trigger] init[i].spec_to_flag(),
            ) by {
                assert(init[i] == features[i]);
            }
            lemma_enabled_is_closure(init, other);
            lemma_feature_flags(last);
            assert(features[features.len() - 1] == last);
            assert(holds(other, last.spec_to_flag()));
            assert(within(last.spec_to_flag(), other));
            assert(within(last.spec_dependencies(), other));
            lemma_within_union(last.spec_to_flag(), last.spec_dependencies(), other);
            lemma_within_union(
                enabled_mask(init),
                last.spec_to_flag() | last.spec_dependencies(),
                other,
            );
        }
    }
}

/// What a request resolves to is consistent: there is a configuration for
/// exactly the enabled flags, and each is kept under its own flag.
pub proof fn lemma_resolve_consistent(features: Seq<Feature>)
    ensures
        resolve(features).consistent(),
{
    let resolution = resolve(features);
    lemma_enabled_is_closure(features, ALL);
    lemma_flags_distinct();
    assert forall|flag: u32| #[trigger]
        resolution.configs.contains_key(flag) <==> is_flag(flag) && holds(
            resolution.enabled,
            flag,
        ) by {
        lemma_requested_config(features, flag);
        if requested_config(features, flag) is Some {
            let i = choose|i: int|
                0 <= i < features.len() && (#[trigger] features[i]).spec_to_flag() == flag;
            lemma_feature_flags(features[i]);
        }
    }
    assert forall|flag: u32| #[trigger] resolution.configs.contains_key(flag) implies
        resolution.configs[flag].spec_to_flag() == flag by {
        lemma_requested_config(features, flag);
    }
}

/// To request the same features again changes nothing: the state after a
/// request depends on the request alone.
pub proof fn lemma_subscribe_idempotent(before: Resolution, features: Seq<Feature>)
    ensures
        before.subscribe(features).subscribe(features) == before.subscribe(features),
{
}

/// A request for raw capture alone enables raw capture alone: neither the
/// moving average nor the device notice is enabled or configured.
pub proof fn lemma_raw_alone(features: Seq<Feature>)
    requires
        forall|i: int| 0 <= i < features.len() ==> #[trigger] features[i] is Raw,
    ensures
        !holds(enabled_mask(features), MOVING_AVERAGE),
        !holds(enabled_mask(features), DEFAULT_DEVICE_CHANGE),
        !resolve(features).configs.contains_key(MOVING_AVERAGE),
        !resolve(features).configs.contains_key(DEFAULT_DEVICE_CHANGE),
        features.len() > 0 ==> enabled_mask(features) == RAW,
{
    lemma_flags_distinct();
    lemma_single_flags(MOVING_AVERAGE);
    lemma_single_flags(DEFAULT_DEVICE_CHANGE);
    lemma_single_flags(RAW);
    lemma_enabled_iff_caused(features, MOVING_AVERAGE);
    lemma_enabled_iff_caused(features, DEFAULT_DEVICE_CHANGE);
    lemma_enabled_iff_caused(features, RAW);
    lemma_resolve_consistent(features);
    lemma_enabled_within_all(features);
    if features.len() > 0 {
        assert(features[0] is Raw);
        let mask = enabled_mask(features);
        assert(holds(mask, RAW));
        assert(mask & 1u32 != 0 && mask & 2u32 == 0 && mask & 4u32 == 0 && mask & !7u32 == 0
            ==> mask == 1u32) by (bit_vector);
    }
}

/// Where raw capture is not requested, it is enabled exactly when the moving
/// average is requested, and then with its default settings: a latency of
/// 5000 microseconds and no down-sampling.
pub proof fn lemma_raw_follows_moving_average(features: Seq<Feature>)
    requires
        forall|i: int| 0 <= i < features.len() ==> !(#[trigger] features[i] is Raw),
    ensures
        holds(enabled_mask(features), RAW) <==> exists|i: int|
            0 <= i < features.len() && #[trigger] features[i] is MovingAverage,
        holds(enabled_mask(features), RAW) ==> resolve(features).configs.contains_key(RAW)
            && resolve(features).configs[RAW] == (Feature::Raw {
            buffer_latency: 5000,
            down_sampling_rate: 0,
        }),
        !holds(enabled_mask(features), RAW) ==> !resolve(features).configs.contains_key(RAW),
{
    lemma_flags_distinct();
    lemma_single_flags(RAW);
    lemma_enabled_iff_caused(features, RAW);
    lemma_requested_config(features, RAW);
    lemma_resolve_consistent(features);
    if holds(enabled_mask(features), RAW) {
        let i = choose|i: int|
            0 <= i < features.len() && (holds((#[trigger] features[i]).spec_to_flag(), RAW)
                || holds(features[i].spec_dependencies(), RAW));
        assert(features[i] is MovingAverage);
    }
    if exists|i: int| 0 <= i < features.len() && #[trigger] features[i] is MovingAverage {
        let i = choose|i: int| 0 <= i < features.len() && #[trigger] features[i] is MovingAverage;
        assert(holds(features[i].spec_dependencies(), RAW));
    }
}

} // verus!
