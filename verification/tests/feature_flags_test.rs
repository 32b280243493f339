//! Feature flags, their profiles and the toggle manager.
use tcgui_backend::config::feature_flags::{Feature, FeatureFlags, FeatureProfile, FeatureToggleManager};

#[test]
fn test_default_feature_flags() {
    let flags = FeatureFlags::default();
    assert!(flags.bandwidth_monitoring);
    assert!(flags.interface_hotplug);
    assert!(!flags.tc_command_caching);
    assert!(flags.zenoh_advanced_features);
    assert!(!flags.metrics_collection);
    assert!(flags.namespace_monitoring);
    assert!(flags.tc_parameter_validation);
    assert!(!flags.experimental_features);
    assert!(!flags.ab_testing);
}

#[test]
fn test_feature_profile_development() {
    let profile = FeatureProfile::Development;
    let flags = profile.to_feature_flags();
    assert!(flags.bandwidth_monitoring);
    assert!(flags.interface_hotplug);
    assert!(flags.tc_command_caching);
    assert!(flags.experimental_features);
    assert!(flags.ab_testing);
}

#[test]
fn test_feature_profile_production() {
    let profile = FeatureProfile::Production;
    let flags = profile.to_feature_flags();
    assert!(flags.bandwidth_monitoring);
    assert!(!flags.tc_command_caching);
    assert!(!flags.experimental_features);
    assert!(!flags.ab_testing);
    assert!(!flags.metrics_collection);
}

#[test]
fn staging_and_testing_profiles() {
    let staging = FeatureProfile::Staging.to_feature_flags();
    assert!(staging.tc_command_caching);
    assert!(staging.metrics_collection);
    assert!(!staging.experimental_features);
    let testing = FeatureProfile::Testing.to_feature_flags();
    assert!(!testing.bandwidth_monitoring);
    assert!(!testing.interface_hotplug);
    assert!(!testing.zenoh_advanced_features);
    assert!(testing.metrics_collection);
    assert!(testing.tc_parameter_validation);
    let mut custom = FeatureFlags::default();
    custom.ab_testing = true;
    let from_custom = FeatureProfile::Custom(custom).to_feature_flags();
    assert!(from_custom.ab_testing);
    assert!(from_custom.bandwidth_monitoring);
}

#[test]
fn test_feature_toggle_manager() {
    let mut manager = FeatureToggleManager::new();

    assert!(manager.is_enabled(&Feature::BandwidthMonitoring));
    assert!(!manager.is_enabled(&Feature::TcCommandCaching));

    manager.enable_feature(&Feature::TcCommandCaching);
    assert!(manager.is_enabled(&Feature::TcCommandCaching));

    manager.disable_feature(&Feature::BandwidthMonitoring);
    assert!(!manager.is_enabled(&Feature::BandwidthMonitoring));
}

#[test]
fn test_toggle_feature() {
    let mut manager = FeatureToggleManager::new();
    let initial_state = manager.is_enabled(&Feature::TcCommandCaching);

    let new_state = manager.toggle_feature(&Feature::TcCommandCaching);
    assert_eq!(new_state, !initial_state);
    assert_eq!(manager.is_enabled(&Feature::TcCommandCaching), new_state);
}

#[test]
fn toggling_twice_restores_the_flag() {
    let mut manager = FeatureToggleManager::new();
    let before = manager.is_enabled(&Feature::AbTesting);
    manager.toggle_feature(&Feature::AbTesting);
    manager.toggle_feature(&Feature::AbTesting);
    assert_eq!(manager.is_enabled(&Feature::AbTesting), before);
    let custom = Feature::Custom("x".to_string());
    manager.toggle_feature(&custom);
    assert!(manager.is_enabled(&custom));
    manager.toggle_feature(&custom);
    assert!(!manager.is_enabled(&custom));
}

#[test]
fn test_custom_features() {
    let mut manager = FeatureToggleManager::new();

    assert!(!manager.is_enabled(&Feature::Custom("test_feature".to_string())));

    manager.set_custom_feature("test_feature", true);
    assert!(manager.is_enabled(&Feature::Custom("test_feature".to_string())));

    let was_present = manager.remove_custom_feature("test_feature");
    assert!(was_present);
    assert!(!manager.is_enabled(&Feature::Custom("test_feature".to_string())));
    assert!(!manager.remove_custom_feature("test_feature"));
}

#[test]
fn test_update_multiple_features() {
    let mut manager = FeatureToggleManager::new();

    let updates = vec![
        (Feature::TcCommandCaching, true),
        (Feature::MetricsCollection, true),
        (Feature::BandwidthMonitoring, false),
    ];

    manager.update_features(updates);

    assert!(manager.is_enabled(&Feature::TcCommandCaching));
    assert!(manager.is_enabled(&Feature::MetricsCollection));
    assert!(!manager.is_enabled(&Feature::BandwidthMonitoring));
}

#[test]
fn test_reset_to_profile() {
    let mut manager = FeatureToggleManager::with_profile(FeatureProfile::Development);

    manager.disable_feature(&Feature::ExperimentalFeatures);

    manager.reset_to_profile();

    assert!(manager.is_enabled(&Feature::ExperimentalFeatures));
}

#[test]
fn test_feature_macros() {
    let manager = FeatureToggleManager::new();

    let is_enabled = manager.is_enabled(&Feature::BandwidthMonitoring);
    assert!(is_enabled);

    let mut executed = false;
    if manager.is_enabled(&Feature::BandwidthMonitoring) {
        executed = true;
    }
    assert!(executed);

    let mut if_executed = false;
    let mut else_executed = false;
    if manager.is_enabled(&Feature::TcCommandCaching) {
        if_executed = true;
    } else {
        else_executed = true;
    }
    assert!(!if_executed);
    assert!(else_executed);
}

#[test]
fn profile_names_from_the_environment() {
    let dev = FeatureToggleManager::from_env_value(Some("DEV"));
    assert!(matches!(dev.get_profile(), FeatureProfile::Development));
    assert!(dev.is_enabled(&Feature::ExperimentalFeatures));
    let stage = FeatureToggleManager::from_env_value(Some("stage"));
    assert!(matches!(stage.get_profile(), FeatureProfile::Staging));
    let test = FeatureToggleManager::from_env_value(Some("testing"));
    assert!(matches!(test.get_profile(), FeatureProfile::Testing));
    let unknown = FeatureToggleManager::from_env_value(Some("nonsense"));
    assert!(matches!(unknown.get_profile(), FeatureProfile::Production));
    let absent = FeatureToggleManager::from_env_value(None);
    assert!(matches!(absent.get_profile(), FeatureProfile::Production));
}

#[test]
fn all_flags_reflect_changes() {
    let mut manager = FeatureToggleManager::default();
    manager.enable_feature(&Feature::AbTesting);
    manager.set_custom_feature("beta", true);
    let flags = manager.get_all_flags();
    assert!(flags.ab_testing);
    assert_eq!(flags.custom.get("beta"), Some(true));
    assert_eq!(flags.custom.get("gamma"), None);
}

#[test]
fn updates_to_different_features_commute() {
    let mut a = FeatureToggleManager::new();
    let mut b = FeatureToggleManager::new();
    a.update_features(vec![
        (Feature::AbTesting, true),
        (Feature::Custom("x".to_string()), true),
        (Feature::BandwidthMonitoring, false),
    ]);
    b.update_features(vec![
        (Feature::BandwidthMonitoring, false),
        (Feature::AbTesting, true),
        (Feature::Custom("x".to_string()), true),
    ]);
    for f in [Feature::AbTesting, Feature::BandwidthMonitoring, Feature::Custom("x".to_string())] {
        assert_eq!(a.is_enabled(&f), b.is_enabled(&f));
    }
    let mut c = FeatureToggleManager::new();
    c.update_features(vec![(Feature::AbTesting, true), (Feature::AbTesting, false)]);
    assert!(!c.is_enabled(&Feature::AbTesting));
}

#[test]
fn cloned_manager_keeps_flags_and_profile() {
    let mut manager = FeatureToggleManager::with_profile(FeatureProfile::Staging);
    manager.enable_feature(&Feature::AbTesting);
    manager.set_custom_feature("beta", true);
    let mut copy = manager.clone();
    assert!(matches!(copy.get_profile(), FeatureProfile::Staging));
    assert!(copy.is_enabled(&Feature::AbTesting));
    assert!(copy.is_enabled(&Feature::Custom("beta".to_string())));
    copy.disable_feature(&Feature::AbTesting);
    assert!(manager.is_enabled(&Feature::AbTesting));
}
