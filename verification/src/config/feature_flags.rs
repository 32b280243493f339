//! Feature flags: switches that turn backend behaviour on and off at run
//! time, grouped into profiles for development, staging, production and
//! testing, with named extension flags beside the built-in ones.
use vstd::prelude::*;
use crate::config::custom_flags::CustomFlags;
use crate::text::{str_eq};
use crate::unicode::{lowercase, to_lowercase};

verus! {

/// The state of every flag.
#[derive(Debug, Clone)]
pub struct FeatureFlags {
    /// Bandwidth monitoring.
    pub bandwidth_monitoring: bool,
    /// Interface hot-plug detection.
    pub interface_hotplug: bool,
    /// Caching of tc commands.
    pub tc_command_caching: bool,
    /// Advanced zenoh features.
    pub zenoh_advanced_features: bool,
    /// Metrics collection.
    pub metrics_collection: bool,
    /// Namespace monitoring.
    pub namespace_monitoring: bool,
    /// Validation of tc parameters.
    pub tc_parameter_validation: bool,
    /// Experimental features.
    pub experimental_features: bool,
    /// The A/B testing framework.
    pub ab_testing: bool,
    /// Extension flags by name.
    pub custom: CustomFlags,
}

/// The mathematical content of a set of flags.
pub struct FlagsModel {
    pub bandwidth_monitoring: bool,
    pub interface_hotplug: bool,
    pub tc_command_caching: bool,
    pub zenoh_advanced_features: bool,
    pub metrics_collection: bool,
    pub namespace_monitoring: bool,
    pub tc_parameter_validation: bool,
    pub experimental_features: bool,
    pub ab_testing: bool,
    pub custom: Map<Seq<char>, bool>,
}

impl View for FeatureFlags {
    type V = FlagsModel;

    open spec fn view(&self) -> FlagsModel {
        FlagsModel {
            bandwidth_monitoring: self.bandwidth_monitoring,
            interface_hotplug: self.interface_hotplug,
            tc_command_caching: self.tc_command_caching,
            zenoh_advanced_features: self.zenoh_advanced_features,
            metrics_collection: self.metrics_collection,
            namespace_monitoring: self.namespace_monitoring,
            tc_parameter_validation: self.tc_parameter_validation,
            experimental_features: self.experimental_features,
            ab_testing: self.ab_testing,
            custom: self.custom@,
        }
    }
}

/// A feature that can be switched.
#[derive(Debug, Clone, PartialEq, Eq, Hash)]
pub enum Feature {
    BandwidthMonitoring,
    InterfaceHotplug,
    TcCommandCaching,
    ZenohAdvancedFeatures,
    MetricsCollection,
    NamespaceMonitoring,
    TcParameterValidation,
    ExperimentalFeatures,
    AbTesting,
    Custom(String),
}

/// Whether two features name the same switch (custom ones by name).
pub open spec fn same_feature(a: Feature, b: Feature) -> bool {
    match (a, b) {
        (Feature::Custom(x), Feature::Custom(y)) => x@ == y@,
        (Feature::Custom(_), _) => false,
        (_, Feature::Custom(_)) => false,
        _ => a == b,
    }
}

/// Whether `f` is on in `m`; an unset custom flag is off.
pub open spec fn model_get(m: FlagsModel, f: Feature) -> bool {
    match f {
        Feature::BandwidthMonitoring => m.bandwidth_monitoring,
        Feature::InterfaceHotplug => m.interface_hotplug,
        Feature::TcCommandCaching => m.tc_command_caching,
        Feature::ZenohAdvancedFeatures => m.zenoh_advanced_features,
        Feature::MetricsCollection => m.metrics_collection,
        Feature::NamespaceMonitoring => m.namespace_monitoring,
        Feature::TcParameterValidation => m.tc_parameter_validation,
        Feature::ExperimentalFeatures => m.experimental_features,
        Feature::AbTesting => m.ab_testing,
        Feature::Custom(name) => m.custom.contains_key(name@) && m.custom[name@],
    }
}

/// `m` with `f` switched to `v`; a custom flag is added when new.
pub open spec fn model_set(m: FlagsModel, f: Feature, v: bool) -> FlagsModel {
    match f {
        Feature::BandwidthMonitoring => FlagsModel { bandwidth_monitoring: v, ..m },
        Feature::InterfaceHotplug => FlagsModel { interface_hotplug: v, ..m },
        Feature::TcCommandCaching => FlagsModel { tc_command_caching: v, ..m },
        Feature::ZenohAdvancedFeatures => FlagsModel { zenoh_advanced_features: v, ..m },
        Feature::MetricsCollection => FlagsModel { metrics_collection: v, ..m },
        Feature::NamespaceMonitoring => FlagsModel { namespace_monitoring: v, ..m },
        Feature::TcParameterValidation => FlagsModel { tc_parameter_validation: v, ..m },
        Feature::ExperimentalFeatures => FlagsModel { experimental_features: v, ..m },
        Feature::AbTesting => FlagsModel { ab_testing: v, ..m },
        Feature::Custom(name) => FlagsModel { custom: m.custom.insert(name@, v), ..m },
    }
}

/// `m` after the updates, applied in order.
pub open spec fn model_apply(m: FlagsModel, updates: Seq<(Feature, bool)>) -> FlagsModel
    decreases updates.len(),
{
    if updates.len() == 0 {
        m
    } else {
        model_set(model_apply(m, updates.drop_last()), updates.last().0, updates.last().1)
    }
}

/// The built-in flags as nine values, in declaration order, with no
/// custom flags.
pub open spec fn builtin_model(
    bandwidth_monitoring: bool,
    interface_hotplug: bool,
    tc_command_caching: bool,
    zenoh_advanced_features: bool,
    metrics_collection: bool,
    namespace_monitoring: bool,
    tc_parameter_validation: bool,
    experimental_features: bool,
    ab_testing: bool,
) -> FlagsModel {
    FlagsModel {
        bandwidth_monitoring,
        interface_hotplug,
        tc_command_caching,
        zenoh_advanced_features,
        metrics_collection,
        namespace_monitoring,
        tc_parameter_validation,
        experimental_features,
        ab_testing,
        custom: Map::empty(),
    }
}

/// The default flags, which are those of production.
pub open spec fn default_model() -> FlagsModel {
    builtin_model(true, true, false, true, false, true, true, false, false)
}

/// The flags of a profile.
pub open spec fn profile_model(p: FeatureProfile) -> FlagsModel {
    match p {
        FeatureProfile::Development => builtin_model(
            true,
            true,
            true,
            true,
            true,
            true,
            true,
            true,
            true,
        ),
        FeatureProfile::Staging => builtin_model(
            true,
            true,
            true,
            true,
            true,
            true,
            true,
            false,
            false,
        ),
        FeatureProfile::Production => default_model(),
        FeatureProfile::Testing => builtin_model(
            false,
            false,
            false,
            false,
            true,
            true,
            true,
            false,
            false,
        ),
        FeatureProfile::Custom(flags) => flags@,
    }
}

/// The profile a name selects, compared in lowercase; unknown names select
/// production.
pub open spec fn profile_of_name(name: Seq<char>) -> FeatureProfile {
    let n = lowercase(name);
    if n == "development"@ || n == "dev"@ {
        FeatureProfile::Development
    } else if n == "staging"@ || n == "stage"@ {
        FeatureProfile::Staging
    } else if n == "testing"@ || n == "test"@ {
        FeatureProfile::Testing
    } else {
        FeatureProfile::Production
    }
}

impl FeatureFlags {
    /// A copy with the same flags.
    pub fn duplicate(&self) -> (r: FeatureFlags)
        ensures
            r@ == self@,
    {
        FeatureFlags {
            bandwidth_monitoring: self.bandwidth_monitoring,
            interface_hotplug: self.interface_hotplug,
            tc_command_caching: self.tc_command_caching,
            zenoh_advanced_features: self.zenoh_advanced_features,
            metrics_collection: self.metrics_collection,
            namespace_monitoring: self.namespace_monitoring,
            tc_parameter_validation: self.tc_parameter_validation,
            experimental_features: self.experimental_features,
            ab_testing: self.ab_testing,
            custom: self.custom.duplicate(),
        }
    }

    /// Whether `feature` is on; an unset custom flag is off.
    pub fn get(&self, feature: &Feature) -> (r: bool)
        ensures
            r == model_get(self@, *feature),
    {
        match feature {
            Feature::BandwidthMonitoring => self.bandwidth_monitoring,
            Feature::InterfaceHotplug => self.interface_hotplug,
            Feature::TcCommandCaching => self.tc_command_caching,
            Feature::ZenohAdvancedFeatures => self.zenoh_advanced_features,
            Feature::MetricsCollection => self.metrics_collection,
            Feature::NamespaceMonitoring => self.namespace_monitoring,
            Feature::TcParameterValidation => self.tc_parameter_validation,
            Feature::ExperimentalFeatures => self.experimental_features,
            Feature::AbTesting => self.ab_testing,
            Feature::Custom(name) => match self.custom.get(name.as_str()) {
                Some(v) => v,
                None => false,
            },
        }
    }

    /// Switches `feature` to `enabled`.
    pub fn set(&mut self, feature: &Feature, enabled: bool)
        ensures
            final(self)@ == model_set(old(self)@, *feature, enabled),
    {
        match feature {
            Feature::BandwidthMonitoring => self.bandwidth_monitoring = enabled,
            Feature::InterfaceHotplug => self.interface_hotplug = enabled,
            Feature::TcCommandCaching => self.tc_command_caching = enabled,
            Feature::ZenohAdvancedFeatures => self.zenoh_advanced_features = enabled,
            Feature::MetricsCollection => self.metrics_collection = enabled,
            Feature::NamespaceMonitoring => self.namespace_monitoring = enabled,
            Feature::TcParameterValidation => self.tc_parameter_validation = enabled,
            Feature::ExperimentalFeatures => self.experimental_features = enabled,
            Feature::AbTesting => self.ab_testing = enabled,
            Feature::Custom(name) => self.custom.insert(name.as_str(), enabled),
        }
    }
}

impl Default for FeatureFlags {
    /// Bandwidth monitoring, hot-plug detection, advanced zenoh features,
    /// namespace monitoring and parameter validation on; the rest off.
    fn default() -> (r: FeatureFlags)
        ensures
            r@ == default_model(),
    {
        FeatureFlags {
            bandwidth_monitoring: true,
            interface_hotplug: true,
            tc_command_caching: false,
            zenoh_advanced_features: true,
            metrics_collection: false,
            namespace_monitoring: true,
            tc_parameter_validation: true,
            experimental_features: false,
            ab_testing: false,
            custom: CustomFlags::new(),
        }
    }
}

/// A named set of flag defaults.
#[derive(Debug)]
pub enum FeatureProfile {
    /// Nearly everything on, for development.
    Development,
    /// Like production, with caching and metrics on.
    Staging,
    /// The conservative defaults.
    Production,
    /// For automated tests: monitoring off, metrics and validation on.
    Testing,
    /// Flags given explicitly.
    Custom(FeatureFlags),
}

/// Two profiles are the same: the same named profile, or explicit flags
/// with the same values.
pub open spec fn same_profile(a: FeatureProfile, b: FeatureProfile) -> bool {
    match (a, b) {
        (FeatureProfile::Development, FeatureProfile::Development) => true,
        (FeatureProfile::Staging, FeatureProfile::Staging) => true,
        (FeatureProfile::Production, FeatureProfile::Production) => true,
        (FeatureProfile::Testing, FeatureProfile::Testing) => true,
        (FeatureProfile::Custom(x), FeatureProfile::Custom(y)) => x@ == y@,
        _ => false,
    }
}

impl FeatureProfile {
    /// A copy of this profile.
    pub fn duplicate(&self) -> (r: FeatureProfile)
        ensures
            same_profile(r, *self),
            profile_model(r) == profile_model(*self),
    {
        match self {
            FeatureProfile::Development => FeatureProfile::Development,
            FeatureProfile::Staging => FeatureProfile::Staging,
            FeatureProfile::Production => FeatureProfile::Production,
            FeatureProfile::Testing => FeatureProfile::Testing,
            FeatureProfile::Custom(f) => FeatureProfile::Custom(f.duplicate()),
        }
    }

    /// The flags this profile stands for.
    pub fn to_feature_flags(&self) -> (r: FeatureFlags)
        ensures
            r@ == profile_model(*self),
    {
        match self {
            FeatureProfile::Development => FeatureFlags {
                bandwidth_monitoring: true,
                interface_hotplug: true,
                tc_command_caching: true,
                zenoh_advanced_features: true,
                metrics_collection: true,
                namespace_monitoring: true,
                tc_parameter_validation: true,
                experimental_features: true,
                ab_testing: true,
                custom: CustomFlags::new(),
            },
            FeatureProfile::Staging => FeatureFlags {
                bandwidth_monitoring: true,
                interface_hotplug: true,
                tc_command_caching: true,
                zenoh_advanced_features: true,
                metrics_collection: true,
                namespace_monitoring: true,
                tc_parameter_validation: true,
                experimental_features: false,
                ab_testing: false,
                custom: CustomFlags::new(),
            },
            FeatureProfile::Production => FeatureFlags {
                bandwidth_monitoring: true,
                interface_hotplug: true,
                tc_command_caching: false,
                zenoh_advanced_features: true,
                metrics_collection: false,
                namespace_monitoring: true,
                tc_parameter_validation: true,
                experimental_features: false,
                ab_testing: false,
                custom: CustomFlags::new(),
            },
            FeatureProfile::Testing => FeatureFlags {
                bandwidth_monitoring: false,
                interface_hotplug: false,
                tc_command_caching: false,
                zenoh_advanced_features: false,
                metrics_collection: true,
                namespace_monitoring: true,
                tc_parameter_validation: true,
                experimental_features: false,
                ab_testing: false,
                custom: CustomFlags::new(),
            },
            FeatureProfile::Custom(flags) => flags.duplicate(),
        }
    }

    /// The profile selected by a name such as `dev` or `Production`
    /// (any letter case); an unknown name selects production.
    pub fn from_name(name: &str) -> (p: FeatureProfile)
        ensures
            p == profile_of_name(name@),
    {
        let lower = to_lowercase(name);
        let n = lower.as_str();
        if str_eq(n, "development") || str_eq(n, "dev") {
            FeatureProfile::Development
        } else if str_eq(n, "staging") || str_eq(n, "stage") {
            FeatureProfile::Staging
        } else if str_eq(n, "testing") || str_eq(n, "test") {
            FeatureProfile::Testing
        } else {
            FeatureProfile::Production
        }
    }
}

/// The current flags together with the profile they started from.
///
/// A manager owns its flags: changes go through `&mut self`, and a clone
/// is an independent copy with the same flags and profile. Tasks that
/// share one set of flags hold one manager behind a lock.
#[derive(Debug)]
pub struct FeatureToggleManager {
    flags: FeatureFlags,
    profile: FeatureProfile,
}

impl FeatureToggleManager {
    /// The current flags.
    pub closed spec fn flags_model(&self) -> FlagsModel {
        self.flags@
    }

    /// The profile the manager was made with.
    pub closed spec fn profile_spec(&self) -> FeatureProfile {
        self.profile
    }

    /// Default flags under the production profile.
    pub fn new() -> (m: FeatureToggleManager)
        ensures
            m.flags_model() == default_model(),
            m.profile_spec() == FeatureProfile::Production,
    {
        FeatureToggleManager { flags: FeatureFlags::default(), profile: FeatureProfile::Production }
    }

    /// The flags of `profile`, remembering the profile.
    pub fn with_profile(profile: FeatureProfile) -> (m: FeatureToggleManager)
        ensures
            m.flags_model() == profile_model(profile),
            m.profile_spec() == profile,
    {
        let flags = profile.to_feature_flags();
        FeatureToggleManager { flags, profile }
    }

    /// A manager for the profile named by the `TCGUI_FEATURE_PROFILE`
    /// setting, given here as its value; production when it is absent or
    /// names no profile.
    pub fn from_env_value(value: Option<&str>) -> (m: FeatureToggleManager)
        ensures
            m.profile_spec() == (match value {
                Some(v) => profile_of_name(v@),
                None => FeatureProfile::Production,
            }),
            m.flags_model() == profile_model(m.profile_spec()),
    {
        let profile = match value {
            Some(v) => FeatureProfile::from_name(v),
            None => FeatureProfile::Production,
        };
        Self::with_profile(profile)
    }

    /// Whether `feature` is on; an unset custom flag is off.
    pub fn is_enabled(&self, feature: &Feature) -> (r: bool)
        ensures
            r == model_get(self.flags_model(), *feature),
    {
        self.flags.get(feature)
    }

    /// Turns `feature` on.
    pub fn enable_feature(&mut self, feature: &Feature)
        ensures
            final(self).flags_model() == model_set(old(self).flags_model(), *feature, true),
            final(self).profile_spec() == old(self).profile_spec(),
    {
        self.flags.set(feature, true);
    }

    /// Turns `feature` off.
    pub fn disable_feature(&mut self, feature: &Feature)
        ensures
            final(self).flags_model() == model_set(old(self).flags_model(), *feature, false),
            final(self).profile_spec() == old(self).profile_spec(),
    {
        self.flags.set(feature, false);
    }

    /// Flips `feature` and returns its new state.
    pub fn toggle_feature(&mut self, feature: &Feature) -> (r: bool)
        ensures
            r == !model_get(old(self).flags_model(), *feature),
            final(self).flags_model() == model_set(old(self).flags_model(), *feature, r),
            final(self).profile_spec() == old(self).profile_spec(),
    {
        let current = self.flags.get(feature);
        let new_state = !current;
        self.flags.set(feature, new_state);
        new_state
    }

    /// A copy of the current flags.
    pub fn get_all_flags(&self) -> (r: FeatureFlags)
        ensures
            r@ == self.flags_model(),
    {
        self.flags.duplicate()
    }

    /// Applies the updates in order.
    pub fn update_features(&mut self, updates: Vec<(Feature, bool)>)
        ensures
            final(self).flags_model() == model_apply(old(self).flags_model(), updates@),
            final(self).profile_spec() == old(self).profile_spec(),
    {
        let mut i: usize = 0;
        while i < updates.len()
            invariant
                i <= updates@.len(),
                self.flags@ == model_apply(old(self).flags@, updates@.subrange(0, i as int)),
                self.profile == old(self).profile,
            decreases updates.len() - i,
        {
            let ghost before = updates@.subrange(0, i as int);
            self.flags.set(&updates[i].0, updates[i].1);
            proof {
                let after = updates@.subrange(0, i + 1);
                assert(after.drop_last() =~= before);
                assert(after.last() == updates@[i as int]);
            }
            i = i + 1;
        }
        assert(updates@.subrange(0, updates@.len() as int) =~= updates@);
    }

    /// Puts the flags back to those of the profile.
    pub fn reset_to_profile(&mut self)
        ensures
            final(self).flags_model() == profile_model(old(self).profile_spec()),
            final(self).profile_spec() == old(self).profile_spec(),
    {
        self.flags = self.profile.to_feature_flags();
    }

    /// The profile the manager was made with.
    pub fn get_profile(&self) -> (p: &FeatureProfile)
        ensures
            *p == self.profile_spec(),
    {
        &self.profile
    }

    /// Sets the custom flag `name`.
    pub fn set_custom_feature(&mut self, name: &str, enabled: bool)
        ensures
            final(self).flags_model() == (FlagsModel {
                custom: old(self).flags_model().custom.insert(name@, enabled),
                ..old(self).flags_model()
            }),
            final(self).profile_spec() == old(self).profile_spec(),
    {
        self.flags.custom.insert(name, enabled);
    }

    /// Removes the custom flag `name`; true when it was set.
    pub fn remove_custom_feature(&mut self, name: &str) -> (was_present: bool)
        ensures
            was_present == old(self).flags_model().custom.contains_key(name@),
            final(self).flags_model() == (FlagsModel {
                custom: old(self).flags_model().custom.remove(name@),
                ..old(self).flags_model()
            }),
            final(self).profile_spec() == old(self).profile_spec(),
    {
        self.flags.custom.remove(name)
    }
}

impl Clone for FeatureProfile {
    fn clone(&self) -> (r: FeatureProfile)
        ensures
            same_profile(r, *self),
            profile_model(r) == profile_model(*self),
    {
        self.duplicate()
    }
}

impl Clone for FeatureToggleManager {
    fn clone(&self) -> (r: FeatureToggleManager)
        ensures
            r.flags_model() == self.flags_model(),
            same_profile(r.profile_spec(), self.profile_spec()),
    {
        FeatureToggleManager { flags: self.flags.duplicate(), profile: self.profile.duplicate() }
    }
}

impl Default for FeatureToggleManager {
    fn default() -> (m: FeatureToggleManager)
        ensures
            m.flags_model() == default_model(),
            m.profile_spec() == FeatureProfile::Production,
    {
        Self::new()
    }
}


/// Switching a feature and then reading it gives the new state, and every
/// other feature reads as before.
pub proof fn law_set_then_get(m: FlagsModel, f: Feature, v: bool, g: Feature)
    ensures
        model_get(model_set(m, f, v), f) == v,
        !same_feature(f, g) ==> model_get(model_set(m, f, v), g) == model_get(m, g),
{
}

/// Toggling a feature twice leaves every feature reading as before.
pub proof fn law_toggle_twice(m: FlagsModel, f: Feature, g: Feature)
    ensures
        ({
            let once = model_set(m, f, !model_get(m, f));
            let twice = model_set(once, f, !model_get(once, f));
            model_get(twice, g) == model_get(m, g)
        }),
{
}

/// A removed custom flag reads as off, whatever it was set to before.
pub proof fn law_removed_custom_is_off(m: FlagsModel, name: String, v: bool)
    ensures
        !model_get(
            FlagsModel { custom: model_set(m, Feature::Custom(name), v).custom.remove(name@), ..m },
            Feature::Custom(name),
        ),
{
}

/// Whether some update switches `g`.
pub open spec fn updated_in(updates: Seq<(Feature, bool)>, g: Feature) -> bool {
    exists|i: int| 0 <= i < updates.len() && same_feature(#[trigger] updates[i].0, g)
}

/// No two updates switch the same feature.
pub open spec fn updates_distinct(updates: Seq<(Feature, bool)>) -> bool {
    forall|i: int, j: int|
        0 <= i < j < updates.len() ==> !same_feature(#[trigger] updates[i].0, #[trigger] updates[j].0)
}

/// When no feature is updated twice, the order of the updates does not
/// matter: each updated feature reads as its update says, and every other
/// feature reads as before.
pub proof fn law_updates_order_free(m: FlagsModel, updates: Seq<(Feature, bool)>, k: int, g: Feature)
    requires
        updates_distinct(updates),
    ensures
        0 <= k < updates.len() && same_feature(updates[k].0, g) ==> model_get(
            model_apply(m, updates),
            g,
        ) == updates[k].1,
        !updated_in(updates, g) ==> model_get(model_apply(m, updates), g) == model_get(m, g),
    decreases updates.len(),
{
    if updates.len() > 0 {
        let d = updates.drop_last();
        let n = updates.len() - 1;
        assert(updates_distinct(d)) by {
            assert forall|i: int, j: int| 0 <= i < j < d.len() implies !same_feature(
                #[trigger] d[i].0,
                #[trigger] d[j].0,
            ) by {
                assert(d[i] == updates[i] && d[j] == updates[j]);
            }
        }
        if 0 <= k < n {
            assert(d[k] == updates[k]);
            law_updates_order_free(m, d, k, g);
            if same_feature(updates[k].0, g) && same_feature(updates[n].0, g) {
                lemma_same_feature_trans(updates[k].0, g, updates[n].0);
                assert(!same_feature(updates[k].0, updates[n].0));
            }
        } else {
            law_updates_order_free(m, d, 0, g);
        }
        if !updated_in(updates, g) {
            assert forall|i: int| 0 <= i < d.len() implies !same_feature(#[trigger] d[i].0, g) by {
                assert(d[i] == updates[i]);
                if same_feature(d[i].0, g) {
                    assert(same_feature(updates[i].0, g));
                }
            }
            assert(!same_feature(updates[n].0, g));
        }
    }
}

/// Two features that both name a third name each other.
pub proof fn lemma_same_feature_trans(a: Feature, b: Feature, c: Feature)
    requires
        same_feature(a, b),
        same_feature(c, b),
    ensures
        same_feature(a, c),
{
}

} // verus!
