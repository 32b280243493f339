//! Backend configuration: command line settings, application settings,
//! feature flags and the hot-reloadable overrides.
pub mod app_config;
pub mod cli;
pub mod custom_flags;
pub mod feature_flags;
pub mod hot_reload;
pub mod zenoh_config;

pub use app_config::{AppConfig, AppConfigBuilder, ConfigError, LogLevel};
pub use cli::CliConfig;
