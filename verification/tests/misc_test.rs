//! Namespaces, link types, hot reloading, decimals and patterns.
use tcgui_backend::clock::Timestamp;
use tcgui_backend::config::custom_flags::CustomFlags;
use tcgui_backend::config::feature_flags::{Feature, FeatureFlags, FeatureToggleManager};
use tcgui_backend::config::hot_reload::{
    config_template, environment_config, file_needs_reload, parse_bool, ConfigHotReloadManager,
    ConfigReloadEvent, ConfigSource, HotReloadableConfig,
};
use tcgui_backend::decimal::Decimal;
use tcgui_backend::netns::{NamespaceError, NamespacePath};
use tcgui_backend::network::{
    determine_interface_type, filter_interfaces, interesting_qdisc_kind, new_interfaces, stale_publisher_keys,
    InterfaceType, NetworkInterface,
};
use tcgui_backend::pattern::match_pattern;

fn at(secs: u64) -> Timestamp {
    Timestamp { secs, nanos: 0 }
}

#[test]
fn namespace_files() {
    assert_eq!(NamespacePath::Default.file(), None);
    assert_eq!(NamespacePath::Named("blue".to_string()).file().as_deref(), Some("/var/run/netns/blue"));
    assert_eq!(NamespacePath::Path("/proc/1/ns/net".to_string()).file().as_deref(), Some("/proc/1/ns/net"));
    assert!(matches!(NamespacePath::Default.resolve(), Ok(None)));
    assert!(matches!(
        NamespacePath::Named("x".to_string()).resolve_given(false),
        Err(NamespaceError::TraditionalNamespaceNotFound(n)) if n == "x"
    ));
    assert!(matches!(
        NamespacePath::Path("/nope".to_string()).resolve_given(false),
        Err(NamespaceError::NamespaceNotFound(p)) if p == "/nope"
    ));
    assert_eq!(
        NamespacePath::Named("x".to_string()).resolve_given(true).unwrap().as_deref(),
        Some("/var/run/netns/x")
    );
    match NamespacePath::Path("/definitely/not/a/namespace/file".to_string()).resolve() {
        Err(NamespaceError::NamespaceNotFound(p)) => assert_eq!(p, "/definitely/not/a/namespace/file"),
        other => panic!("unexpected {:?}", other),
    }
}

#[test]
fn namespace_error_messages() {
    assert_eq!(
        NamespaceError::NamespaceNotFound("/p".to_string()).to_string(),
        "Namespace path does not exist: /p"
    );
    assert_eq!(
        NamespaceError::TraditionalNamespaceNotFound("n".to_string()).to_string(),
        "Network namespace 'n' not found in /var/run/netns/"
    );
    assert_eq!(
        NamespaceError::OperationFailed("boom".to_string()).to_string(),
        "Operation failed inside namespace: boom"
    );
}

#[test]
fn link_types() {
    assert_eq!(determine_interface_type("eth0", true, None), InterfaceType::Loopback);
    assert_eq!(determine_interface_type("x", false, Some("bridge")), InterfaceType::Bridge);
    assert_eq!(determine_interface_type("x", false, Some("veth")), InterfaceType::Veth);
    assert_eq!(determine_interface_type("x", false, Some("tap")), InterfaceType::Tun);
    assert_eq!(determine_interface_type("x", false, Some("bond")), InterfaceType::Virtual);
    assert_eq!(determine_interface_type("x", false, Some("e1000")), InterfaceType::Physical);
    assert_eq!(determine_interface_type("br-123", false, None), InterfaceType::Bridge);
    assert_eq!(determine_interface_type("docker0", false, None), InterfaceType::Bridge);
    assert_eq!(determine_interface_type("veth9", false, None), InterfaceType::Veth);
    assert_eq!(determine_interface_type("tun0", false, None), InterfaceType::Tun);
    assert_eq!(determine_interface_type("lo", false, None), InterfaceType::Loopback);
    assert_eq!(determine_interface_type("enp3s0", false, None), InterfaceType::Physical);
}

#[test]
fn qdisc_kinds_worth_showing() {
    assert_eq!(interesting_qdisc_kind(None), None);
    assert_eq!(interesting_qdisc_kind(Some("noqueue".to_string())), None);
    assert_eq!(interesting_qdisc_kind(Some("mq".to_string())), None);
    assert_eq!(interesting_qdisc_kind(Some("netem".to_string())).as_deref(), Some("netem"));
}

#[test]
fn reload_timing() {
    assert!(file_needs_reload(None, Some(at(5))));
    assert!(file_needs_reload(Some(at(5)), None));
    assert!(file_needs_reload(Some(at(5)), Some(at(6))));
    assert!(!file_needs_reload(Some(at(5)), Some(at(5))));
    assert!(!file_needs_reload(Some(at(6)), Some(at(5))));
    assert!(file_needs_reload(Some(Timestamp { secs: 5, nanos: 1 }), Some(Timestamp { secs: 5, nanos: 2 })));
}

#[test]
fn booleans_and_environment() {
    assert_eq!(parse_bool("true"), Some(true));
    assert_eq!(parse_bool("false"), Some(false));
    assert_eq!(parse_bool("TRUE"), None);
    assert!(environment_config(None, None, None, None, None, at(1)).is_none());
    assert!(environment_config(None, None, Some("abc"), None, Some("yes"), at(1)).is_none());
    let c = environment_config(None, None, Some("10"), None, Some("true"), at(7)).unwrap();
    assert!(c.features.is_none());
    let o = c.app_overrides.unwrap();
    assert_eq!(o.interface_monitor_interval_secs, Some(10));
    assert_eq!(o.bandwidth_monitor_interval_secs, None);
    assert_eq!(o.exclude_loopback, Some(true));
    assert_eq!(c.last_modified, Some(at(7)));
    assert!(matches!(c.source, ConfigSource::Environment));
    let f = environment_config(Some(FeatureFlags::default()), None, None, None, None, at(2)).unwrap();
    assert!(f.features.is_some());
    assert!(f.app_overrides.is_none());
}

#[test]
fn test_config_template_creation() {
    let t = config_template("test_config.json", at(3));
    let f = t.features.unwrap();
    assert!(f.bandwidth_monitoring);
    let o = t.app_overrides.unwrap();
    assert_eq!(o.log_level.as_deref(), Some("info"));
    assert_eq!(o.interface_monitor_interval_secs, Some(5));
    assert_eq!(o.bandwidth_monitor_interval_secs, Some(2));
    assert_eq!(o.exclude_loopback, Some(false));
    assert!(matches!(t.source, ConfigSource::File(ref p) if p == "test_config.json"));
}

#[test]
fn test_hot_reload_manager_creation() {
    let sources = vec![ConfigSource::Environment];
    let manager = ConfigHotReloadManager::new(sources, 1000);
    assert!(manager.get_current_config().features.is_none());
    assert!(matches!(manager.get_current_config().source, ConfigSource::Environment));
    assert!(manager.is_enabled());
    assert_eq!(manager.reload_interval_ms(), 1000);
}

#[test]
fn reload_carries_flags_over() {
    let mut manager = ConfigHotReloadManager::new(vec![ConfigSource::File("/c.json".to_string())], 10);
    let mut features = FeatureToggleManager::new();
    features.set_custom_feature("old", true);
    features.set_custom_feature("keep", true);
    let mut flags = FeatureFlags::default();
    flags.metrics_collection = true;
    flags.ab_testing = true;
    flags.tc_parameter_validation = false;
    flags.custom.insert("new", true);
    flags.custom.insert("old", false);
    let cfg = HotReloadableConfig {
        features: Some(flags),
        app_overrides: None,
        last_modified: Some(at(9)),
        source: ConfigSource::File("/c.json".to_string()),
    };
    let event = manager.apply_reloaded_config(cfg, &mut features);
    assert!(matches!(event, Some(ConfigReloadEvent::FeatureFlagsReloaded(_))));
    assert!(features.is_enabled(&Feature::MetricsCollection));
    assert!(features.is_enabled(&Feature::AbTesting));
    assert!(!features.is_enabled(&Feature::TcParameterValidation));
    assert!(features.is_enabled(&Feature::ZenohAdvancedFeatures));
    assert!(features.is_enabled(&Feature::Custom("new".to_string())));
    assert!(!features.is_enabled(&Feature::Custom("old".to_string())));
    assert!(features.is_enabled(&Feature::Custom("keep".to_string())));
    assert_eq!(manager.get_current_config().last_modified, Some(at(9)));
    assert!(!manager.file_changed_since_load(Some(at(8))));
    assert!(manager.file_changed_since_load(Some(at(10))));
    manager.set_enabled(false);
    assert!(!manager.is_enabled());

    let none = HotReloadableConfig {
        features: None,
        app_overrides: None,
        last_modified: None,
        source: ConfigSource::Environment,
    };
    assert!(manager.apply_reloaded_config(none, &mut features).is_none());
}

#[test]
fn custom_flag_table() {
    let mut c = CustomFlags::new();
    assert_eq!(c.get("a"), None);
    c.insert("a", true);
    c.insert("b", false);
    c.insert("a", false);
    assert_eq!(c.get("a"), Some(false));
    assert_eq!(c.to_list().len(), 2);
    assert!(c.remove("a"));
    assert!(!c.remove("a"));
    assert_eq!(c.get("b"), Some(false));
}

#[test]
fn decimals() {
    assert_eq!(Decimal::parse("12.50").unwrap().to_string(), "12.5");
    assert_eq!(Decimal::parse("-0.05").unwrap().to_string(), "-0.05");
    assert_eq!(Decimal::parse("7").unwrap().to_string(), "7");
    assert!(Decimal::parse("").is_none());
    assert!(Decimal::parse("1.2.3").is_none());
    assert!(Decimal::parse("abc").is_none());
    let a = Decimal::new(15, 1);
    let b = Decimal::from_int(2);
    assert!(a.less_than(&b));
    assert!(a.at_most(&b));
    assert!(Decimal::new(20, 1).same_value(&b));
    assert!(a.is_percentage());
    assert!(!Decimal::from_int(101).is_percentage());
    assert_eq!(Decimal::new(1999, 3).trunc_u64(), 1);
    assert_eq!(Decimal::from_int(-3).trunc_u64(), 0);
}

#[test]
fn patterns() {
    assert_eq!(match_pattern("^[a-z]+$", "abc"), Some(true));
    assert_eq!(match_pattern("^[a-z]+$", "ab1"), Some(false));
    assert_eq!(match_pattern("(", "x"), None);
}

fn iface(name: &str, ns: &str, t: InterfaceType) -> NetworkInterface {
    NetworkInterface {
        name: name.to_string(),
        index: 1,
        namespace: ns.to_string(),
        is_up: true,
        has_tc_qdisc: false,
        interface_type: t,
    }
}

#[test]
fn loopback_filtering() {
    let all = vec![
        iface("lo", "default", InterfaceType::Loopback),
        iface("eth0", "default", InterfaceType::Physical),
        iface("lo2", "x", InterfaceType::Loopback),
        iface("lo", "y", InterfaceType::Physical),
    ];
    let kept = filter_interfaces(true, all.clone());
    assert_eq!(kept.len(), 1);
    assert_eq!(kept[0].name, "eth0");
    assert_eq!(filter_interfaces(false, all).len(), 4);
}

#[test]
fn stale_publishers_are_found() {
    let current = vec![iface("eth0", "default", InterfaceType::Physical), iface("veth1", "ns", InterfaceType::Veth)];
    let keys = vec![
        "default/eth0".to_string(),
        "default/eth1".to_string(),
        "ns/veth1".to_string(),
        "other/eth0".to_string(),
    ];
    assert_eq!(stale_publisher_keys(&keys, &current), vec!["default/eth1".to_string(), "other/eth0".to_string()]);
    assert!(stale_publisher_keys(&vec![], &current).is_empty());
}

#[test]
fn reloading_the_same_flags_twice_changes_nothing_more() {
    let mut manager = ConfigHotReloadManager::new(vec![], 10);
    let mut features = FeatureToggleManager::new();
    let mut flags = FeatureFlags::default();
    flags.tc_command_caching = true;
    flags.custom.insert("a", true);
    flags.custom.insert("b", false);
    let cfg = || HotReloadableConfig {
        features: Some(flags.clone()),
        app_overrides: None,
        last_modified: None,
        source: ConfigSource::Environment,
    };
    manager.apply_reloaded_config(cfg(), &mut features);
    let once = features.get_all_flags();
    manager.apply_reloaded_config(cfg(), &mut features);
    let twice = features.get_all_flags();
    assert_eq!(once.tc_command_caching, twice.tc_command_caching);
    assert_eq!(once.custom.to_list().len(), twice.custom.to_list().len());
    assert_eq!(twice.custom.get("a"), Some(true));
    assert_eq!(twice.custom.get("b"), None);
}

#[test]
fn interfaces_new_since_the_last_scan() {
    let mut eth0 = iface("eth0", "default", InterfaceType::Physical);
    eth0.index = 2;
    let mut veth = iface("veth1", "ns1", InterfaceType::Veth);
    veth.index = 7;
    let mut renamed = iface("eth0-renamed", "default", InterfaceType::Physical);
    renamed.index = 2;
    let previous = vec![eth0];
    let updated = vec![renamed, veth];
    let fresh = new_interfaces(&previous, &updated);
    assert_eq!(fresh, vec![("ns1".to_string(), "veth1".to_string())]);
    assert!(new_interfaces(&updated, &updated).is_empty());
}

#[test]
fn words_split_at_unicode_whitespace() {
    let text = "a\u{00A0}b\u{3000}c\u{2009}d\u{200B}e\u{0085}f";
    let expected: Vec<String> = text.split_whitespace().map(|w| w.to_string()).collect();
    assert_eq!(tcgui_backend::lines::split_whitespace(text), expected);
    assert_eq!(expected, vec!["a", "b", "c", "d\u{200B}e", "f"]);
}
