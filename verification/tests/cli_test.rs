//! Validation of command-line settings.
use tcgui_backend::config::app_config::ConfigError;
use tcgui_backend::config::cli::CliConfig;

fn cli(name: &str, mode: &str) -> CliConfig {
    CliConfig {
        verbose: false,
        exclude_loopback: false,
        backend_name: name.to_string(),
        zenoh_mode: mode.to_string(),
        zenoh_connect: None,
        zenoh_listen: None,
        no_multicast: false,
        scenario_dirs: vec![],
        no_default_scenarios: false,
        preset_dirs: vec![],
        no_default_presets: false,
    }
}

#[test]
fn test_cli_config_validation_success() {
    assert!(cli("valid-name_123", "peer").validate().is_ok());
}

#[test]
fn test_cli_config_validation_empty_name() {
    assert!(cli("", "peer").validate().is_err());
}

#[test]
fn test_cli_config_validation_invalid_name_characters() {
    assert!(cli("invalid@name!", "peer").validate().is_err());
}

#[test]
fn test_cli_config_validation_invalid_zenoh_mode() {
    assert!(cli("valid-name", "invalid-mode").validate().is_err());
}

#[test]
fn cli_validation_errors_and_accepted_modes() {
    assert!(matches!(cli("", "peer").validate(), Err(ConfigError::EmptyBackendName)));
    assert!(matches!(cli("a b", "peer").validate(), Err(ConfigError::InvalidBackendName)));
    match cli("ok", "router").validate() {
        Err(ConfigError::InvalidZenohMode { mode }) => assert_eq!(mode, "router"),
        other => panic!("unexpected {:?}", other),
    }
    assert!(cli("ok", "client").validate().is_ok());
    assert!(cli("Ünïcode-name", "peer").validate().is_ok());
}
