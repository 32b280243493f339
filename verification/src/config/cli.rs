//! Command line settings of the backend and their validation.
use vstd::prelude::*;
use crate::config::app_config::ConfigError;
use crate::text::{chars_of, owned, str_eq};
use crate::unicode::{alphanumeric, is_alphanumeric, lowercase, to_lowercase};

verus! {

/// The settings given on the command line.
#[derive(Debug, Clone)]
pub struct CliConfig {
    pub verbose: bool,
    pub exclude_loopback: bool,
    pub backend_name: String,
    pub zenoh_mode: String,
    pub zenoh_connect: Option<String>,
    pub zenoh_listen: Option<String>,
    pub no_multicast: bool,
    pub scenario_dirs: Vec<String>,
    pub no_default_scenarios: bool,
    pub preset_dirs: Vec<String>,
    pub no_default_presets: bool,
}

/// A character allowed in a backend name: alphanumeric, `-` or `_`.
pub open spec fn name_char_ok(c: char) -> bool {
    alphanumeric(c) || c == '-' || c == '_'
}

/// Every character of the name is allowed.
pub open spec fn name_chars_ok(s: Seq<char>) -> bool {
    forall|i: int| 0 <= i < s.len() ==> name_char_ok(#[trigger] s[i])
}

/// The zenoh mode, compared case-insensitively, is `peer` or `client`.
pub open spec fn zenoh_mode_ok(mode: Seq<char>) -> bool {
    lowercase(mode) == "peer"@ || lowercase(mode) == "client"@
}

/// Whether every character of `s` is allowed in a backend name.
pub fn backend_name_chars_valid(s: &str) -> (r: bool)
    ensures
        r == name_chars_ok(s@),
{
    let v = chars_of(s);
    let mut i: usize = 0;
    while i < v.len()
        invariant
            i <= v.len(),
            v@ == s@,
            forall|j: int| 0 <= j < i ==> name_char_ok(#[trigger] v@[j]),
        decreases v.len() - i,
    {
        let c = v[i];
        if !(is_alphanumeric(c) || c == '-' || c == '_') {
            return false;
        }
        i = i + 1;
    }
    true
}

impl CliConfig {
    /// Checks the settings: the backend name is non-empty and made of
    /// alphanumeric characters, hyphens and underscores; the zenoh mode is
    /// `peer` or `client` in any letter case.
    pub fn validate(&self) -> (r: Result<(), ConfigError>)
        ensures
            self.backend_name@.len() == 0 ==> r == Err::<(), ConfigError>(
                ConfigError::EmptyBackendName,
            ),
            self.backend_name@.len() > 0 && !name_chars_ok(self.backend_name@) ==> r == Err::<
                (),
                ConfigError,
            >(ConfigError::InvalidBackendName),
            self.backend_name@.len() > 0 && name_chars_ok(self.backend_name@) && !zenoh_mode_ok(
                self.zenoh_mode@,
            ) ==> (r matches Err(ConfigError::InvalidZenohMode { mode }) && mode@
                == self.zenoh_mode@),
            r is Ok <==> self.backend_name@.len() > 0 && name_chars_ok(self.backend_name@)
                && zenoh_mode_ok(self.zenoh_mode@),
    {
        let name = self.backend_name.as_str();
        if name.is_empty() {
            return Err(ConfigError::EmptyBackendName);
        }
        if !backend_name_chars_valid(name) {
            return Err(ConfigError::InvalidBackendName);
        }
        let mode = to_lowercase(self.zenoh_mode.as_str());
        if str_eq(mode.as_str(), "peer") || str_eq(mode.as_str(), "client") {
            Ok(())
        } else {
            Err(ConfigError::InvalidZenohMode { mode: owned(self.zenoh_mode.as_str()) })
        }
    }
}

} // verus!
