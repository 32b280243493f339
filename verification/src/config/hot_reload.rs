//! Configuration that can change while the backend runs: where it comes
//! from, when a file needs reading again, what the environment overrides,
//! and how reloaded feature flags are carried over to the running flags.
//!
//! Watching files, reading the environment and announcing reload events are
//! left to the caller; this module decides what each of those steps does.
use vstd::prelude::*;
use crate::config::app_config::AppConfig;
use crate::config::custom_flags::{entries_map, lemma_entries_lack, names_distinct, CustomFlags};
use crate::config::feature_flags::{
    default_model,
    Feature,
    FeatureFlags,
    FeatureToggleManager,
    FlagsModel,
};
use crate::text::{opt_view, owned, parse_u64, parse_u64_spec, str_eq};
pub use crate::clock::{not_later, Timestamp};

verus! {

/// What a reload announces.
#[derive(Debug, Clone)]
pub enum ConfigReloadEvent {
    /// Feature flags were reloaded.
    FeatureFlagsReloaded(FeatureFlags),
    /// The application configuration was reloaded.
    AppConfigReloaded(AppConfig),
    /// The environment changed.
    EnvironmentChanged,
    /// The configuration file at this path changed.
    FileChanged(String),
    /// A reload was asked for by hand.
    ManualReload,
}

/// Where configuration comes from.
#[derive(Debug, Clone)]
pub enum ConfigSource {
    /// A JSON file at this path.
    File(String),
    /// Environment variables.
    Environment,
    /// A zenoh key-value store under this prefix.
    Zenoh { key_prefix: String },
    /// An HTTP endpoint.
    Http { endpoint: String },
}

/// Whether two sources are the same kind with the same text.
pub open spec fn same_source(a: ConfigSource, b: ConfigSource) -> bool {
    match (a, b) {
        (ConfigSource::File(x), ConfigSource::File(y)) => x@ == y@,
        (ConfigSource::Environment, ConfigSource::Environment) => true,
        (ConfigSource::Zenoh { key_prefix: x }, ConfigSource::Zenoh { key_prefix: y }) => x@
            == y@,
        (ConfigSource::Http { endpoint: x }, ConfigSource::Http { endpoint: y }) => x@ == y@,
        _ => false,
    }
}

impl ConfigSource {
    /// A copy of the source.
    pub fn duplicate(&self) -> (r: ConfigSource)
        ensures
            same_source(r, *self),
    {
        match self {
            ConfigSource::File(p) => ConfigSource::File(owned(p.as_str())),
            ConfigSource::Environment => ConfigSource::Environment,
            ConfigSource::Zenoh { key_prefix } => ConfigSource::Zenoh {
                key_prefix: owned(key_prefix.as_str()),
            },
            ConfigSource::Http { endpoint } => ConfigSource::Http {
                endpoint: owned(endpoint.as_str()),
            },
        }
    }
}

/// Overrides of application settings.
#[derive(Debug, Clone)]
pub struct AppConfigOverrides {
    /// The logging level.
    pub log_level: Option<String>,
    /// The interface monitor interval in seconds.
    pub interface_monitor_interval_secs: Option<u64>,
    /// The bandwidth monitor interval in seconds.
    pub bandwidth_monitor_interval_secs: Option<u64>,
    /// Whether the loopback interface is left out.
    pub exclude_loopback: Option<bool>,
}

/// Configuration that can be reloaded.
#[derive(Debug, Clone)]
pub struct HotReloadableConfig {
    /// Feature flags to apply.
    pub features: Option<FeatureFlags>,
    /// Application setting overrides.
    pub app_overrides: Option<AppConfigOverrides>,
    /// When the configuration was last changed.
    pub last_modified: Option<Timestamp>,
    /// Where it came from.
    pub source: ConfigSource,
}

/// Whether a configuration file must be read again: always, unless both
/// times are known and the file is not newer than what was loaded.
pub fn file_needs_reload(loaded: Option<Timestamp>, file_modified: Option<Timestamp>) -> (r: bool)
    ensures
        r == !(loaded is Some && file_modified is Some && not_later(
            file_modified->0,
            loaded->0,
        )),
{
    match (loaded, file_modified) {
        (Some(current), Some(file)) => !file.not_later_than(&current),
        _ => true,
    }
}

/// What `str::parse::<bool>` accepts.
pub open spec fn parse_bool_spec(s: Seq<char>) -> Option<bool> {
    if s == "true"@ {
        Some(true)
    } else if s == "false"@ {
        Some(false)
    } else {
        None
    }
}

/// Reads `true` or `false` as `str::parse::<bool>` does.
pub fn parse_bool(s: &str) -> (r: Option<bool>)
    ensures
        r == parse_bool_spec(s@),
{
    if str_eq(s, "true") {
        Some(true)
    } else if str_eq(s, "false") {
        Some(false)
    } else {
        None
    }
}

/// A number read from an optional setting, when it reads as one.
pub open spec fn optional_u64(s: Option<Seq<char>>) -> Option<u64> {
    match s {
        Some(t) => match parse_u64_spec(t) {
            Some(n) => Some(n as u64),
            None => None,
        },
        None => None,
    }
}

/// A truth value read from an optional setting, when it reads as one.
pub open spec fn optional_bool(s: Option<Seq<char>>) -> Option<bool> {
    match s {
        Some(t) => parse_bool_spec(t),
        None => None,
    }
}

/// The configuration the environment gives, from the values of its
/// settings: flags already read from `TCGUI_FEATURE_FLAGS`, and the raw
/// values of `TCGUI_LOG_LEVEL`, `TCGUI_INTERFACE_MONITOR_INTERVAL`,
/// `TCGUI_BANDWIDTH_MONITOR_INTERVAL` and `TCGUI_EXCLUDE_LOOPBACK`. Values
/// that do not read as numbers or truth values are ignored; the overrides
/// are kept only when one of them is present, and nothing is returned when
/// neither flags nor overrides are.
pub fn environment_config(
    features: Option<FeatureFlags>,
    log_level: Option<String>,
    interface_interval: Option<&str>,
    bandwidth_interval: Option<&str>,
    exclude_loopback: Option<&str>,
    now: Timestamp,
) -> (r: Option<HotReloadableConfig>)
    ensures
        ({
            let iface = optional_u64(opt_view(interface_interval));
            let bw = optional_u64(opt_view(bandwidth_interval));
            let excl = optional_bool(opt_view(exclude_loopback));
            let any_override = log_level is Some || iface is Some || bw is Some || excl is Some;
            &&& r is Some <==> (features is Some || any_override)
            &&& r matches Some(c) ==> {
                &&& c.features == features
                &&& c.last_modified == Some(now)
                &&& c.source == ConfigSource::Environment
                &&& (c.app_overrides is Some <==> any_override)
                &&& c.app_overrides matches Some(o) ==> {
                    &&& o.log_level == log_level
                    &&& o.interface_monitor_interval_secs == iface
                    &&& o.bandwidth_monitor_interval_secs == bw
                    &&& o.exclude_loopback == excl
                }
            }
        }),
{
    let iface = match interface_interval {
        Some(s) => parse_u64(s),
        None => None,
    };
    let bw = match bandwidth_interval {
        Some(s) => parse_u64(s),
        None => None,
    };
    let excl = match exclude_loopback {
        Some(s) => parse_bool(s),
        None => None,
    };
    let any_override = log_level.is_some() || iface.is_some() || bw.is_some() || excl.is_some();
    let app_overrides = if any_override {
        Some(
            AppConfigOverrides {
                log_level,
                interface_monitor_interval_secs: iface,
                bandwidth_monitor_interval_secs: bw,
                exclude_loopback: excl,
            },
        )
    } else {
        None
    };
    if features.is_some() || app_overrides.is_some() {
        Some(
            HotReloadableConfig {
                features,
                app_overrides,
                last_modified: Some(now),
                source: ConfigSource::Environment,
            },
        )
    } else {
        None
    }
}

/// The file written as a starting point: default flags, the default
/// settings as overrides, and the file as source.
pub fn config_template(path: &str, now: Timestamp) -> (c: HotReloadableConfig)
    ensures
        c.features matches Some(f) && f@ == default_model(),
        c.app_overrides matches Some(o) && o.log_level matches Some(l) && l@ == "info"@
            && o.interface_monitor_interval_secs == Some(5u64)
            && o.bandwidth_monitor_interval_secs == Some(2u64) && o.exclude_loopback == Some(
            false,
        ),
        c.last_modified == Some(now),
        c.source matches ConfigSource::File(p) && p@ == path@,
{
    HotReloadableConfig {
        features: Some(FeatureFlags::default()),
        app_overrides: Some(
            AppConfigOverrides {
                log_level: Some(owned("info")),
                interface_monitor_interval_secs: Some(5),
                bandwidth_monitor_interval_secs: Some(2),
                exclude_loopback: Some(false),
            },
        ),
        last_modified: Some(now),
        source: ConfigSource::File(owned(path)),
    }
}

/// The custom flags after a reload: a flag turned on by the reload is set;
/// one turned off is removed if it was on and otherwise kept as it was;
/// flags the reload does not name are kept.
pub open spec fn reload_custom(cur: Map<Seq<char>, bool>, new: Map<Seq<char>, bool>) -> Map<
    Seq<char>,
    bool,
> {
    Map::new(
        |k: Seq<char>|
            if new.contains_key(k) {
                new[k] || (cur.contains_key(k) && !cur[k])
            } else {
                cur.contains_key(k)
            },
        |k: Seq<char>|
            if new.contains_key(k) && new[k] {
                true
            } else {
                cur[k]
            },
    )
}

/// The flags after a reload: all nine built-in flags take the reloaded
/// values; custom flags follow `reload_custom`.
pub open spec fn reloaded_flags(cur: FlagsModel, new: FlagsModel) -> FlagsModel {
    FlagsModel {
        bandwidth_monitoring: new.bandwidth_monitoring,
        interface_hotplug: new.interface_hotplug,
        tc_command_caching: new.tc_command_caching,
        metrics_collection: new.metrics_collection,
        namespace_monitoring: new.namespace_monitoring,
        experimental_features: new.experimental_features,
        zenoh_advanced_features: new.zenoh_advanced_features,
        tc_parameter_validation: new.tc_parameter_validation,
        ab_testing: new.ab_testing,
        custom: reload_custom(cur.custom, new.custom),
    }
}

/// Switches one built-in feature to `wanted` when it differs from `current`.
fn sync_feature(manager: &mut FeatureToggleManager, feature: Feature, current: bool, wanted: bool)
    requires
        !(feature is Custom),
        current == crate::config::feature_flags::model_get(old(manager).flags_model(), feature),
    ensures
        final(manager).flags_model() == crate::config::feature_flags::model_set(
            old(manager).flags_model(),
            feature,
            wanted,
        ),
        final(manager).profile_spec() == old(manager).profile_spec(),
{
    if wanted != current {
        if wanted {
            manager.enable_feature(&feature);
        } else {
            manager.disable_feature(&feature);
        }
    } else {
        assert(crate::config::feature_flags::model_set(old(manager).flags_model(), feature, wanted)
            == old(manager).flags_model());
    }
}

/// Carries the reloaded monitoring flags (bandwidth, hot-plug, namespaces,
/// metrics) and tc command caching over to the running ones.
#[verifier::rlimit(60)]
fn apply_monitoring_changes(manager: &mut FeatureToggleManager, new_features: &FeatureFlags)
    ensures
        final(manager).flags_model() == (FlagsModel {
            bandwidth_monitoring: new_features.bandwidth_monitoring,
            interface_hotplug: new_features.interface_hotplug,
            tc_command_caching: new_features.tc_command_caching,
            metrics_collection: new_features.metrics_collection,
            namespace_monitoring: new_features.namespace_monitoring,
            ..old(manager).flags_model()
        }),
        final(manager).profile_spec() == old(manager).profile_spec(),
{
    let current = manager.get_all_flags();
    sync_feature(
        manager,
        Feature::BandwidthMonitoring,
        current.bandwidth_monitoring,
        new_features.bandwidth_monitoring,
    );
    sync_feature(
        manager,
        Feature::InterfaceHotplug,
        current.interface_hotplug,
        new_features.interface_hotplug,
    );
    sync_feature(
        manager,
        Feature::TcCommandCaching,
        current.tc_command_caching,
        new_features.tc_command_caching,
    );
    sync_feature(
        manager,
        Feature::MetricsCollection,
        current.metrics_collection,
        new_features.metrics_collection,
    );
    sync_feature(
        manager,
        Feature::NamespaceMonitoring,
        current.namespace_monitoring,
        new_features.namespace_monitoring,
    );
}

/// Carries the reloaded experimental, advanced zenoh, parameter validation
/// and A/B testing flags over to the running ones.
#[verifier::rlimit(60)]
fn apply_extended_changes(manager: &mut FeatureToggleManager, new_features: &FeatureFlags)
    ensures
        final(manager).flags_model() == (FlagsModel {
            experimental_features: new_features.experimental_features,
            zenoh_advanced_features: new_features.zenoh_advanced_features,
            tc_parameter_validation: new_features.tc_parameter_validation,
            ab_testing: new_features.ab_testing,
            ..old(manager).flags_model()
        }),
        final(manager).profile_spec() == old(manager).profile_spec(),
{
    let current = manager.get_all_flags();
    sync_feature(
        manager,
        Feature::ExperimentalFeatures,
        current.experimental_features,
        new_features.experimental_features,
    );
    sync_feature(
        manager,
        Feature::ZenohAdvancedFeatures,
        current.zenoh_advanced_features,
        new_features.zenoh_advanced_features,
    );
    sync_feature(
        manager,
        Feature::TcParameterValidation,
        current.tc_parameter_validation,
        new_features.tc_parameter_validation,
    );
    sync_feature(manager, Feature::AbTesting, current.ab_testing, new_features.ab_testing);
}

/// Carries the nine reloaded built-in flags over to the running ones.
fn apply_builtin_changes(manager: &mut FeatureToggleManager, new_features: &FeatureFlags)
    ensures
        final(manager).flags_model() == (FlagsModel {
            bandwidth_monitoring: new_features.bandwidth_monitoring,
            interface_hotplug: new_features.interface_hotplug,
            tc_command_caching: new_features.tc_command_caching,
            metrics_collection: new_features.metrics_collection,
            namespace_monitoring: new_features.namespace_monitoring,
            experimental_features: new_features.experimental_features,
            zenoh_advanced_features: new_features.zenoh_advanced_features,
            tc_parameter_validation: new_features.tc_parameter_validation,
            ab_testing: new_features.ab_testing,
            ..old(manager).flags_model()
        }),
        final(manager).profile_spec() == old(manager).profile_spec(),
{
    apply_monitoring_changes(manager, new_features);
    apply_extended_changes(manager, new_features);
}

/// Carries reloaded custom flags over to the running ones (see
/// `reload_custom`).
fn apply_custom_changes(manager: &mut FeatureToggleManager, new_custom: &CustomFlags)
    ensures
        final(manager).flags_model() == (FlagsModel {
            custom: reload_custom(old(manager).flags_model().custom, new_custom@),
            ..old(manager).flags_model()
        }),
        final(manager).profile_spec() == old(manager).profile_spec(),
{
    let current = manager.get_all_flags();
    let ghost start = manager.flags_model();
    let entries = new_custom.to_list();
    let mut i: usize = 0;
    assert(reload_custom(current@.custom, entries_map(entries@.subrange(0, 0))) =~= current@.custom);
    while i < entries.len()
        invariant
            i <= entries@.len(),
            names_distinct(entries@),
            entries_map(entries@) == new_custom@,
            current@ == start,
            manager.flags_model() == (FlagsModel {
                custom: reload_custom(start.custom, entries_map(entries@.subrange(0, i as int))),
                ..start
            }),
            manager.profile_spec() == old(manager).profile_spec(),
            start == old(manager).flags_model(),
        decreases entries.len() - i,
    {
        let ghost prefix = entries@.subrange(0, i as int);
        let name = entries[i].0.as_str();
        let enabled = entries[i].1;
        let current_enabled = match current.custom.get(name) {
            Some(v) => v,
            None => false,
        };
        proof {
            assert forall|j: int| 0 <= j < prefix.len() implies #[trigger] prefix[j].0@ != name@ by {
                assert(prefix[j] == entries@[j]);
                assert(entries@[j].0@ != entries@[i as int].0@);
            }
            lemma_entries_lack(prefix, name@);
        }
        if enabled != current_enabled {
            if enabled {
                manager.set_custom_feature(name, true);
            } else {
                manager.remove_custom_feature(name);
            }
        }
        proof {
            let next = entries@.subrange(0, i + 1);
            assert(next.drop_last() =~= prefix);
            assert(entries_map(next) == entries_map(prefix).insert(name@, enabled));
            assert(manager.flags_model().custom =~= reload_custom(start.custom, entries_map(next)));
        }
        i = i + 1;
    }
    assert(entries@.subrange(0, entries@.len() as int) =~= entries@);
}

/// Carries reloaded flags over to the running ones (see `reloaded_flags`).
pub fn apply_feature_changes(manager: &mut FeatureToggleManager, new_features: &FeatureFlags)
    ensures
        final(manager).flags_model() == reloaded_flags(old(manager).flags_model(), new_features@),
        final(manager).profile_spec() == old(manager).profile_spec(),
{
    apply_builtin_changes(manager, new_features);
    apply_custom_changes(manager, &new_features.custom);
}

/// The reloadable configuration in use and the sources it is read from.
pub struct ConfigHotReloadManager {
    config: HotReloadableConfig,
    sources: Vec<ConfigSource>,
    reload_interval_ms: u64,
    enabled: bool,
}

impl ConfigHotReloadManager {
    /// The configuration in use.
    pub closed spec fn config_spec(&self) -> HotReloadableConfig {
        self.config
    }

    /// The sources watched.
    pub closed spec fn sources_spec(&self) -> Seq<ConfigSource> {
        self.sources@
    }

    /// Whether reloading is on.
    pub closed spec fn enabled_spec(&self) -> bool {
        self.enabled
    }

    /// The time between reloads, in milliseconds.
    pub closed spec fn interval_spec(&self) -> u64 {
        self.reload_interval_ms
    }

    /// A manager with nothing loaded yet, whose configuration names the
    /// first source (the environment when there is none); reloading is on.
    pub fn new(sources: Vec<ConfigSource>, reload_interval_ms: u64) -> (m: ConfigHotReloadManager)
        ensures
            m.config_spec().features is None,
            m.config_spec().app_overrides is None,
            m.config_spec().last_modified is None,
            sources@.len() > 0 ==> same_source(m.config_spec().source, sources@[0]),
            sources@.len() == 0 ==> m.config_spec().source == ConfigSource::Environment,
            m.sources_spec() == sources@,
            m.interval_spec() == reload_interval_ms,
            m.enabled_spec(),
    {
        let source = if sources.len() > 0 {
            sources[0].duplicate()
        } else {
            ConfigSource::Environment
        };
        ConfigHotReloadManager {
            config: HotReloadableConfig {
                features: None,
                app_overrides: None,
                last_modified: None,
                source,
            },
            sources,
            reload_interval_ms,
            enabled: true,
        }
    }

    /// The configuration in use.
    pub fn get_current_config(&self) -> (c: &HotReloadableConfig)
        ensures
            *c == self.config_spec(),
    {
        &self.config
    }

    /// The sources watched.
    pub fn sources(&self) -> (s: &Vec<ConfigSource>)
        ensures
            s@ == self.sources_spec(),
    {
        &self.sources
    }

    /// Whether reloading is on.
    pub fn is_enabled(&self) -> (r: bool)
        ensures
            r == self.enabled_spec(),
    {
        self.enabled
    }

    /// The time between reloads, in milliseconds.
    pub fn reload_interval_ms(&self) -> (r: u64)
        ensures
            r == self.interval_spec(),
    {
        self.reload_interval_ms
    }

    /// Turns reloading on or off.
    pub fn set_enabled(&mut self, enabled: bool)
        ensures
            final(self).enabled_spec() == enabled,
            final(self).config_spec() == old(self).config_spec(),
            final(self).sources_spec() == old(self).sources_spec(),
            final(self).interval_spec() == old(self).interval_spec(),
    {
        self.enabled = enabled;
    }

    /// Whether the file source, last changed at `file_modified`, must be
    /// read again (see `file_needs_reload`).
    pub fn file_changed_since_load(&self, file_modified: Option<Timestamp>) -> (r: bool)
        ensures
            r == !(self.config_spec().last_modified is Some && file_modified is Some
                && not_later(file_modified->0, self.config_spec().last_modified->0)),
    {
        file_needs_reload(self.config.last_modified, file_modified)
    }

    /// Takes a reloaded configuration into use and carries its flags over
    /// to `features`; gives the event announcing the flags when it has any.
    pub fn apply_reloaded_config(
        &mut self,
        new_config: HotReloadableConfig,
        features: &mut FeatureToggleManager,
    ) -> (event: Option<ConfigReloadEvent>)
        ensures
            final(self).config_spec() == new_config,
            final(self).sources_spec() == old(self).sources_spec(),
            final(self).enabled_spec() == old(self).enabled_spec(),
            final(self).interval_spec() == old(self).interval_spec(),
            final(features).profile_spec() == old(features).profile_spec(),
            match new_config.features {
                Some(f) => {
                    &&& final(features).flags_model() == reloaded_flags(
                        old(features).flags_model(),
                        f@,
                    )
                    &&& event matches Some(ConfigReloadEvent::FeatureFlagsReloaded(g)) && g@
                        == f@
                },
                None => final(features).flags_model() == old(features).flags_model()
                    && event is None,
            },
    {
        let event = match &new_config.features {
            Some(f) => {
                apply_feature_changes(features, f);
                Some(ConfigReloadEvent::FeatureFlagsReloaded(f.duplicate()))
            },
            None => None,
        };
        self.config = new_config;
        event
    }
}


/// After a reload, every custom flag the reload names reads as the reload
/// says, and so does each of the nine built-in flags.
pub proof fn law_reload_reads_back(cur: FlagsModel, new: FlagsModel, name: String)
    ensures
        new.custom.contains_key(name@) ==> crate::config::feature_flags::model_get(
            reloaded_flags(cur, new),
            Feature::Custom(name),
        ) == new.custom[name@],
        reloaded_flags(cur, new).bandwidth_monitoring == new.bandwidth_monitoring,
        reloaded_flags(cur, new).interface_hotplug == new.interface_hotplug,
        reloaded_flags(cur, new).tc_command_caching == new.tc_command_caching,
        reloaded_flags(cur, new).metrics_collection == new.metrics_collection,
        reloaded_flags(cur, new).namespace_monitoring == new.namespace_monitoring,
        reloaded_flags(cur, new).experimental_features == new.experimental_features,
        reloaded_flags(cur, new).zenoh_advanced_features == new.zenoh_advanced_features,
        reloaded_flags(cur, new).tc_parameter_validation == new.tc_parameter_validation,
        reloaded_flags(cur, new).ab_testing == new.ab_testing,
{
}

/// Reloading the same flags a second time changes nothing.
pub proof fn law_reload_idempotent(cur: FlagsModel, new: FlagsModel)
    ensures
        reloaded_flags(reloaded_flags(cur, new), new) == reloaded_flags(cur, new),
{
    assert(reload_custom(reload_custom(cur.custom, new.custom), new.custom) =~= reload_custom(
        cur.custom,
        new.custom,
    ));
}

} // verus!
