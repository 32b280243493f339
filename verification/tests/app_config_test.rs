//! Application settings: log levels, validation and the builder.
use tcgui_backend::config::app_config::{AppConfig, AppConfigBuilder, ConfigError, LogLevel};
use tcgui_backend::config::cli::CliConfig;

fn config(name: &str, iface_secs: u64, bw_secs: u64) -> AppConfig {
    AppConfig {
        backend_name: name.to_string(),
        exclude_loopback: false,
        log_level: LogLevel::Info,
        interface_monitor_interval_secs: iface_secs,
        bandwidth_monitor_interval_secs: bw_secs,
        scenario_dirs: vec![],
        no_default_scenarios: false,
        preset_dirs: vec![],
        no_default_presets: false,
    }
}

fn cli(verbose: bool, exclude_loopback: bool, scenario_dirs: Vec<String>, preset_dirs: Vec<String>, no_defaults: bool) -> CliConfig {
    CliConfig {
        verbose,
        exclude_loopback,
        backend_name: "test-backend".to_string(),
        zenoh_mode: "peer".to_string(),
        zenoh_connect: None,
        zenoh_listen: None,
        no_multicast: false,
        scenario_dirs,
        no_default_scenarios: no_defaults,
        preset_dirs,
        no_default_presets: no_defaults,
    }
}

#[test]
fn test_log_level_parsing() {
    assert_eq!(AppConfig::parse_log_level("info"), LogLevel::Info);
    assert_eq!(AppConfig::parse_log_level("debug"), LogLevel::Debug);
    assert_eq!(AppConfig::parse_log_level("warn"), LogLevel::Warn);
    assert_eq!(AppConfig::parse_log_level("error"), LogLevel::Error);
    assert_eq!(AppConfig::parse_log_level("trace"), LogLevel::Trace);
    assert_eq!(AppConfig::parse_log_level("invalid"), LogLevel::Info);
}

#[test]
fn test_log_level_complex_parsing() {
    assert_eq!(
        AppConfig::parse_log_level("info,zenoh_transport=warn,netlink_proto=warn"),
        LogLevel::Info
    );
    assert_eq!(AppConfig::parse_log_level("debug,some_crate=info"), LogLevel::Debug);
}

#[test]
fn log_level_ignores_case_and_module_prefix() {
    assert_eq!(AppConfig::parse_log_level("WARN"), LogLevel::Warn);
    assert_eq!(AppConfig::parse_log_level("trace=debug"), LogLevel::Trace);
    assert_eq!(AppConfig::parse_log_level(""), LogLevel::Info);
}

#[test]
fn test_app_config_from_cli() {
    let cli_config = cli(
        false,
        true,
        vec!["/custom/scenarios".to_string()],
        vec!["/custom/presets".to_string()],
        true,
    );
    let app_config = AppConfig::from_cli(&cli_config, None);
    assert_eq!(app_config.backend_name, "test-backend");
    assert!(app_config.exclude_loopback);
    assert_eq!(app_config.log_level, LogLevel::Info);
    assert_eq!(app_config.scenario_dirs, vec!["/custom/scenarios"]);
    assert!(app_config.no_default_scenarios);
    assert_eq!(app_config.preset_dirs, vec!["/custom/presets"]);
    assert!(app_config.no_default_presets);
}

#[test]
fn test_app_config_from_cli_verbose() {
    let cli_config = cli(true, false, vec![], vec![], false);
    let app_config = AppConfig::from_cli(&cli_config, Some("error"));
    assert_eq!(app_config.log_level, LogLevel::Debug);
    assert!(app_config.scenario_dirs.is_empty());
    assert!(!app_config.no_default_scenarios);
    assert!(app_config.preset_dirs.is_empty());
    assert!(!app_config.no_default_presets);
}

#[test]
fn from_cli_reads_the_log_environment_when_not_verbose() {
    let cli_config = cli(false, false, vec![], vec![], false);
    let app_config = AppConfig::from_cli(&cli_config, Some("warn,foo=debug"));
    assert_eq!(app_config.log_level, LogLevel::Warn);
    assert_eq!(app_config.interface_monitor_interval_secs, 5);
    assert_eq!(app_config.bandwidth_monitor_interval_secs, 2);
}

#[test]
fn test_app_config_validation_success() {
    assert!(config("valid-name", 5, 2).validate().is_ok());
}

#[test]
fn test_app_config_validation_empty_name() {
    assert!(config("", 5, 2).validate().is_err());
}

#[test]
fn test_app_config_validation_zero_intervals() {
    assert!(config("test", 0, 2).validate().is_err());
    assert!(config("test", 5, 0).validate().is_err());
}

#[test]
fn validation_names_the_first_problem() {
    assert!(matches!(config("", 0, 0).validate(), Err(ConfigError::EmptyBackendName)));
    assert!(matches!(config("x", 0, 0).validate(), Err(ConfigError::ZeroInterfaceInterval)));
    assert!(matches!(config("x", 1, 0).validate(), Err(ConfigError::ZeroBandwidthInterval)));
}

#[test]
fn test_app_config_builder() {
    let config = AppConfigBuilder::new()
        .backend_name("test-backend")
        .exclude_loopback(true)
        .log_level(LogLevel::Debug)
        .interface_monitor_interval(10)
        .bandwidth_monitor_interval(3)
        .build()
        .unwrap();

    assert_eq!(config.backend_name, "test-backend");
    assert!(config.exclude_loopback);
    assert_eq!(config.log_level, LogLevel::Debug);
    assert_eq!(config.interface_monitor_interval_secs, 10);
    assert_eq!(config.bandwidth_monitor_interval_secs, 3);
}

#[test]
fn test_app_config_builder_defaults() {
    let config = AppConfigBuilder::new().backend_name("test").build().unwrap();

    assert_eq!(config.backend_name, "test");
    assert!(!config.exclude_loopback);
    assert_eq!(config.log_level, LogLevel::Info);
    assert_eq!(config.interface_monitor_interval_secs, 5);
    assert_eq!(config.bandwidth_monitor_interval_secs, 2);
}

#[test]
fn test_app_config_builder_missing_required() {
    let result = AppConfigBuilder::new().build();
    assert!(result.is_err());
    assert!(matches!(result, Err(ConfigError::MissingBackendName)));
}

#[test]
fn builder_carries_directories() {
    let config = AppConfigBuilder::new()
        .backend_name("b")
        .scenario_dirs(vec!["/s".to_string()])
        .no_default_scenarios(true)
        .preset_dirs(vec!["/p".to_string(), "/q".to_string()])
        .no_default_presets(true)
        .build()
        .unwrap();
    assert_eq!(config.scenario_dirs, vec!["/s"]);
    assert!(config.no_default_scenarios);
    assert_eq!(config.preset_dirs, vec!["/p", "/q"]);
    assert!(config.no_default_presets);
}

#[test]
fn log_level_filter_strings() {
    assert_eq!(LogLevel::Error.to_filter_string(), "error");
    assert_eq!(LogLevel::Warn.to_filter_string(), "warn");
    assert_eq!(LogLevel::Info.to_filter_string(), "info");
    assert_eq!(LogLevel::Debug.to_filter_string(), "debug");
    assert_eq!(LogLevel::Trace.to_filter_string(), "trace");
}

#[test]
fn log_filter_respects_verbosity_and_environment() {
    let quiet = ",zenoh_transport=warn,zenoh_runtime=warn,zenoh_protocol=warn,netlink_proto=warn";
    let mut c = config("x", 5, 2);
    assert_eq!(c.log_filter(Some("foo=trace")), format!("foo=trace{quiet}"));
    assert_eq!(c.log_filter(Some("")), format!("info{quiet}"));
    assert_eq!(c.log_filter(None), format!("info{quiet}"));
    c.log_level = LogLevel::Debug;
    assert_eq!(c.log_filter(Some("foo")), format!("debug{quiet}"));
    c.log_level = LogLevel::Error;
    assert_eq!(c.log_filter(None), format!("error{quiet}"));
}
