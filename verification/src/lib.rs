//! Verified core of a traffic-control (tc/netem) backend: command building,
//! configuration handling, feature flags, scenario execution decisions and
//! the parsers for kernel and tool output.
pub mod text;
pub mod decimal;
pub mod tc_config;
pub mod tc_commands;
pub mod unicode;
pub mod pattern;
pub mod lines;
pub mod clock;
pub mod paths;
pub mod preset_loader;
pub mod container;
pub mod netns;
pub mod network;
pub mod interfaces;
pub mod services;
pub mod diagnostics;
pub mod bandwidth;
pub mod config;
pub mod commands;
pub mod scenario;
pub mod registry;
pub mod responses;
