//! Application settings: logging level, monitoring intervals, and the
//! directories that scenarios and presets are loaded from.
use vstd::prelude::*;
use crate::config::cli::CliConfig;
use crate::text::{chars_of, find_char, find_first, opt_view, owned, push_str, str_eq, string_from_chars, subvec};
use crate::unicode::{lowercase, to_lowercase};

verus! {

/// Why a configuration was refused.
#[derive(Debug, Clone)]
pub enum ConfigError {
    /// The backend name is empty.
    EmptyBackendName,
    /// No backend name was given to the builder.
    MissingBackendName,
    /// The backend name holds a character other than alphanumerics, `-`, `_`.
    InvalidBackendName,
    /// The interface monitor interval is zero.
    ZeroInterfaceInterval,
    /// The bandwidth monitor interval is zero.
    ZeroBandwidthInterval,
    /// The zenoh mode is neither `peer` nor `client`.
    InvalidZenohMode { mode: String },
}

/// Logging verbosity.
#[derive(Debug, Clone, Copy, PartialEq, Eq, Structural)]
pub enum LogLevel {
    Error,
    Warn,
    Info,
    Debug,
    Trace,
}

/// The tracing filter word of a level.
pub open spec fn filter_word(l: LogLevel) -> Seq<char> {
    match l {
        LogLevel::Error => "error"@,
        LogLevel::Warn => "warn"@,
        LogLevel::Info => "info"@,
        LogLevel::Debug => "debug"@,
        LogLevel::Trace => "trace"@,
    }
}

/// `s` up to (not including) the first `c`.
pub open spec fn before_char(s: Seq<char>, c: char) -> Seq<char> {
    s.subrange(0, find_char(s, c) as int)
}

/// The main level word of a `RUST_LOG` value: the first comma-separated
/// directive, up to any `=`, lowercased.
pub open spec fn main_level_word(s: Seq<char>) -> Seq<char> {
    lowercase(before_char(before_char(s, ','), '='))
}

/// The level a word names; unknown words give `Info`.
pub open spec fn level_of_word(w: Seq<char>) -> LogLevel {
    if w == "error"@ {
        LogLevel::Error
    } else if w == "warn"@ {
        LogLevel::Warn
    } else if w == "info"@ {
        LogLevel::Info
    } else if w == "debug"@ {
        LogLevel::Debug
    } else if w == "trace"@ {
        LogLevel::Trace
    } else {
        LogLevel::Info
    }
}

impl LogLevel {
    /// The tracing filter word: `error`, `warn`, `info`, `debug`, `trace`.
    pub fn to_filter_string(&self) -> (r: &'static str)
        ensures
            r@ == filter_word(*self),
    {
        match self {
            LogLevel::Error => "error",
            LogLevel::Warn => "warn",
            LogLevel::Info => "info",
            LogLevel::Debug => "debug",
            LogLevel::Trace => "trace",
        }
    }
}

/// The crates whose transport chatter is held at `warn`.
pub const QUIET_CRATES: &'static str = ",zenoh_transport=warn,zenoh_runtime=warn,zenoh_protocol=warn,netlink_proto=warn";

/// The tracing filter for a level and the `RUST_LOG` value, if any.
pub open spec fn log_filter_spec(level: LogLevel, rust_log: Option<Seq<char>>) -> Seq<char> {
    let head = if level == LogLevel::Debug || level == LogLevel::Trace {
        filter_word(level)
    } else {
        match rust_log {
            Some(r) => if r.len() > 0 {
                r
            } else {
                filter_word(level)
            },
            None => filter_word(level),
        }
    };
    head + QUIET_CRATES@
}

/// Application settings.
#[derive(Debug, Clone)]
pub struct AppConfig {
    pub backend_name: String,
    pub exclude_loopback: bool,
    pub log_level: LogLevel,
    pub interface_monitor_interval_secs: u64,
    pub bandwidth_monitor_interval_secs: u64,
    pub scenario_dirs: Vec<String>,
    pub no_default_scenarios: bool,
    pub preset_dirs: Vec<String>,
    pub no_default_presets: bool,
}

/// The error `validate` reports first, if any.
pub open spec fn app_config_error(c: AppConfig) -> Option<ConfigError> {
    if c.backend_name@.len() == 0 {
        Some(ConfigError::EmptyBackendName)
    } else if c.interface_monitor_interval_secs == 0 {
        Some(ConfigError::ZeroInterfaceInterval)
    } else if c.bandwidth_monitor_interval_secs == 0 {
        Some(ConfigError::ZeroBandwidthInterval)
    } else {
        None
    }
}

/// Copies a list of strings.
pub fn copy_strings(v: &Vec<String>) -> (r: Vec<String>)
    ensures
        r@ == v@,
{
    let mut r: Vec<String> = Vec::new();
    let mut i: usize = 0;
    while i < v.len()
        invariant
            i <= v.len(),
            r@ == v@.subrange(0, i as int),
        decreases v.len() - i,
    {
        r.push(v[i].clone());
        i = i + 1;
        assert(r@ =~= v@.subrange(0, i as int));
    }
    assert(v@.subrange(0, v.len() as int) =~= v@);
    r
}

impl AppConfig {
    /// Settings from the command line: a verbose flag selects `Debug`,
    /// otherwise the level comes from the `RUST_LOG` value when there is
    /// one (see `parse_log_level`) and is `Info` when there is none. The
    /// monitor intervals are 5 and 2 seconds.
    pub fn from_cli(cli_config: &CliConfig, rust_log: Option<&str>) -> (c: AppConfig)
        ensures
            c.backend_name == cli_config.backend_name,
            c.exclude_loopback == cli_config.exclude_loopback,
            c.log_level == (if cli_config.verbose {
                LogLevel::Debug
            } else {
                match rust_log {
                    Some(s) => level_of_word(main_level_word(s@)),
                    None => LogLevel::Info,
                }
            }),
            c.interface_monitor_interval_secs == 5,
            c.bandwidth_monitor_interval_secs == 2,
            c.scenario_dirs@ == cli_config.scenario_dirs@,
            c.no_default_scenarios == cli_config.no_default_scenarios,
            c.preset_dirs@ == cli_config.preset_dirs@,
            c.no_default_presets == cli_config.no_default_presets,
    {
        let log_level = if cli_config.verbose {
            LogLevel::Debug
        } else {
            match rust_log {
                Some(s) => Self::parse_log_level(s),
                None => LogLevel::Info,
            }
        };
        AppConfig {
            backend_name: cli_config.backend_name.clone(),
            exclude_loopback: cli_config.exclude_loopback,
            log_level,
            interface_monitor_interval_secs: 5,
            bandwidth_monitor_interval_secs: 2,
            scenario_dirs: copy_strings(&cli_config.scenario_dirs),
            no_default_scenarios: cli_config.no_default_scenarios,
            preset_dirs: copy_strings(&cli_config.preset_dirs),
            no_default_presets: cli_config.no_default_presets,
        }
    }

    /// The level named by a `RUST_LOG` value: its first comma-separated
    /// directive up to any `=`, compared in lowercase; `Info` when it names
    /// no level.
    pub fn parse_log_level(level_str: &str) -> (l: LogLevel)
        ensures
            l == level_of_word(main_level_word(level_str@)),
    {
        let v = chars_of(level_str);
        let comma = find_first(&v, ',');
        let first = subvec(&v, 0, comma);
        let eq = find_first(&first, '=');
        let word = subvec(&first, 0, eq);
        let word_s = string_from_chars(&word);
        let lower = to_lowercase(word_s.as_str());
        let w = lower.as_str();
        if str_eq(w, "error") {
            LogLevel::Error
        } else if str_eq(w, "warn") {
            LogLevel::Warn
        } else if str_eq(w, "info") {
            LogLevel::Info
        } else if str_eq(w, "debug") {
            LogLevel::Debug
        } else if str_eq(w, "trace") {
            LogLevel::Trace
        } else {
            LogLevel::Info
        }
    }

    /// The tracing filter to log with: the level's word when it is `debug`
    /// or `trace`, else a non-empty `RUST_LOG` value as given, else the
    /// level's word; in each case with the noisy transport and netlink
    /// crates held at `warn`.
    pub fn log_filter(&self, rust_log: Option<&str>) -> (f: String)
        ensures
            f@ == log_filter_spec(self.log_level, opt_view(rust_log)),
    {
        let mut f = if self.log_level == LogLevel::Debug || self.log_level == LogLevel::Trace {
            owned(self.log_level.to_filter_string())
        } else {
            match rust_log {
                Some(r) => {
                    if r.is_empty() {
                        owned(self.log_level.to_filter_string())
                    } else {
                        owned(r)
                    }
                },
                None => owned(self.log_level.to_filter_string()),
            }
        };
        push_str(&mut f, QUIET_CRATES);
        f
    }

    /// Checks the settings: a non-empty backend name and non-zero intervals.
    pub fn validate(&self) -> (r: Result<(), ConfigError>)
        ensures
            match app_config_error(*self) {
                None => r is Ok,
                Some(e) => r == Err::<(), ConfigError>(e),
            },
    {
        if self.backend_name.as_str().is_empty() {
            return Err(ConfigError::EmptyBackendName);
        }
        if self.interface_monitor_interval_secs == 0 {
            return Err(ConfigError::ZeroInterfaceInterval);
        }
        if self.bandwidth_monitor_interval_secs == 0 {
            return Err(ConfigError::ZeroBandwidthInterval);
        }
        Ok(())
    }
}

/// The value held, or `d` when there is none.
pub open spec fn value_or<T>(o: Option<T>, d: T) -> T {
    match o {
        Some(x) => x,
        None => d,
    }
}

/// The directories held, or none.
pub open spec fn dirs_or_empty(o: Option<Vec<String>>) -> Seq<String> {
    match o {
        Some(v) => v@,
        None => Seq::empty(),
    }
}

/// Step-by-step construction of an `AppConfig`.
#[derive(Debug, Clone)]
pub struct AppConfigBuilder {
    pub backend_name: Option<String>,
    pub exclude_loopback: Option<bool>,
    pub log_level: Option<LogLevel>,
    pub interface_monitor_interval_secs: Option<u64>,
    pub bandwidth_monitor_interval_secs: Option<u64>,
    pub scenario_dirs: Option<Vec<String>>,
    pub no_default_scenarios: Option<bool>,
    pub preset_dirs: Option<Vec<String>>,
    pub no_default_presets: Option<bool>,
}

impl AppConfigBuilder {
    /// A builder with nothing set.
    pub fn new() -> (b: AppConfigBuilder)
        ensures
            b.backend_name is None,
            b.exclude_loopback is None,
            b.log_level is None,
            b.interface_monitor_interval_secs is None,
            b.bandwidth_monitor_interval_secs is None,
            b.scenario_dirs is None,
            b.no_default_scenarios is None,
            b.preset_dirs is None,
            b.no_default_presets is None,
    {
        AppConfigBuilder {
            backend_name: None,
            exclude_loopback: None,
            log_level: None,
            interface_monitor_interval_secs: None,
            bandwidth_monitor_interval_secs: None,
            scenario_dirs: None,
            no_default_scenarios: None,
            preset_dirs: None,
            no_default_presets: None,
        }
    }

    /// Sets the backend name.
    pub fn backend_name(self, name: &str) -> (b: AppConfigBuilder)
        ensures
            b.backend_name matches Some(n) && n@ == name@,
            b == (AppConfigBuilder { backend_name: b.backend_name, ..self }),
    {
        AppConfigBuilder { backend_name: Some(owned(name)), ..self }
    }

    /// Sets loopback exclusion.
    pub fn exclude_loopback(self, exclude: bool) -> (b: AppConfigBuilder)
        ensures
            b == (AppConfigBuilder { exclude_loopback: Some(exclude), ..self }),
    {
        AppConfigBuilder { exclude_loopback: Some(exclude), ..self }
    }

    /// Sets the log level.
    pub fn log_level(self, level: LogLevel) -> (b: AppConfigBuilder)
        ensures
            b == (AppConfigBuilder { log_level: Some(level), ..self }),
    {
        AppConfigBuilder { log_level: Some(level), ..self }
    }

    /// Sets the interface monitor interval.
    pub fn interface_monitor_interval(self, secs: u64) -> (b: AppConfigBuilder)
        ensures
            b == (AppConfigBuilder { interface_monitor_interval_secs: Some(secs), ..self }),
    {
        AppConfigBuilder { interface_monitor_interval_secs: Some(secs), ..self }
    }

    /// Sets the bandwidth monitor interval.
    pub fn bandwidth_monitor_interval(self, secs: u64) -> (b: AppConfigBuilder)
        ensures
            b == (AppConfigBuilder { bandwidth_monitor_interval_secs: Some(secs), ..self }),
    {
        AppConfigBuilder { bandwidth_monitor_interval_secs: Some(secs), ..self }
    }

    /// Sets the scenario directories.
    pub fn scenario_dirs(self, dirs: Vec<String>) -> (b: AppConfigBuilder)
        ensures
            b == (AppConfigBuilder { scenario_dirs: Some(dirs), ..self }),
    {
        AppConfigBuilder { scenario_dirs: Some(dirs), ..self }
    }

    /// Sets whether the default scenario directories are skipped.
    pub fn no_default_scenarios(self, no_defaults: bool) -> (b: AppConfigBuilder)
        ensures
            b == (AppConfigBuilder { no_default_scenarios: Some(no_defaults), ..self }),
    {
        AppConfigBuilder { no_default_scenarios: Some(no_defaults), ..self }
    }

    /// Sets the preset directories.
    pub fn preset_dirs(self, dirs: Vec<String>) -> (b: AppConfigBuilder)
        ensures
            b == (AppConfigBuilder { preset_dirs: Some(dirs), ..self }),
    {
        AppConfigBuilder { preset_dirs: Some(dirs), ..self }
    }

    /// Sets whether the default preset directories are skipped.
    pub fn no_default_presets(self, no_defaults: bool) -> (b: AppConfigBuilder)
        ensures
            b == (AppConfigBuilder { no_default_presets: Some(no_defaults), ..self }),
    {
        AppConfigBuilder { no_default_presets: Some(no_defaults), ..self }
    }

    /// The configuration: the backend name is required; unset settings
    /// default to no loopback exclusion, `Info`, 5 and 2 seconds, no extra
    /// directories and default directories on; the result must validate.
    pub fn build(self) -> (r: Result<AppConfig, ConfigError>)
        ensures
            self.backend_name is None ==> r == Err::<AppConfig, ConfigError>(
                ConfigError::MissingBackendName,
            ),
            self.backend_name matches Some(name) ==> {
                let iface = value_or(self.interface_monitor_interval_secs, 5u64);
                let bw = value_or(self.bandwidth_monitor_interval_secs, 2u64);
                if name@.len() == 0 {
                    r == Err::<AppConfig, ConfigError>(ConfigError::EmptyBackendName)
                } else if iface == 0 {
                    r == Err::<AppConfig, ConfigError>(ConfigError::ZeroInterfaceInterval)
                } else if bw == 0 {
                    r == Err::<AppConfig, ConfigError>(ConfigError::ZeroBandwidthInterval)
                } else {
                    &&& r matches Ok(got)
                    &&& got.backend_name == name
                    &&& got.exclude_loopback == value_or(self.exclude_loopback, false)
                    &&& got.log_level == value_or(self.log_level, LogLevel::Info)
                    &&& got.interface_monitor_interval_secs == iface
                    &&& got.bandwidth_monitor_interval_secs == bw
                    &&& got.scenario_dirs@ == dirs_or_empty(self.scenario_dirs)
                    &&& got.no_default_scenarios == value_or(self.no_default_scenarios, false)
                    &&& got.preset_dirs@ == dirs_or_empty(self.preset_dirs)
                    &&& got.no_default_presets == value_or(self.no_default_presets, false)
                }
            },
    {
        let backend_name = match self.backend_name {
            Some(n) => n,
            None => {
                return Err(ConfigError::MissingBackendName);
            },
        };
        let config = AppConfig {
            backend_name,
            exclude_loopback: match self.exclude_loopback {
                Some(x) => x,
                None => false,
            },
            log_level: match self.log_level {
                Some(x) => x,
                None => LogLevel::Info,
            },
            interface_monitor_interval_secs: match self.interface_monitor_interval_secs {
                Some(x) => x,
                None => 5,
            },
            bandwidth_monitor_interval_secs: match self.bandwidth_monitor_interval_secs {
                Some(x) => x,
                None => 2,
            },
            scenario_dirs: match self.scenario_dirs {
                Some(x) => x,
                None => Vec::new(),
            },
            no_default_scenarios: match self.no_default_scenarios {
                Some(x) => x,
                None => false,
            },
            preset_dirs: match self.preset_dirs {
                Some(x) => x,
                None => Vec::new(),
            },
            no_default_presets: match self.no_default_presets {
                Some(x) => x,
                None => false,
            },
        };
        match config.validate() {
            Ok(()) => Ok(config),
            Err(e) => Err(e),
        }
    }
}

} // verus!
