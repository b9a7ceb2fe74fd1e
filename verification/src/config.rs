//! Settings, as they come from the environment.
//!
//! The caller reads the two variables and hands over what it found; what the
//! values mean is decided here.

use vstd::prelude::*;
use crate::decimal::{parse_u64, parse_u64_spec};

verus! {

/// The variable that holds the upstream credential. It must be set.
pub const API_KEY_VAR: &'static str = "API_KEY";

/// The variable that holds the pause between two fetches, in seconds.
pub const REFRESH_INTERVAL_VAR: &'static str = "REFRESH_INTERVAL_SECS";

/// The pause used when none is configured, or none that can be read: six
/// hours.
pub const DEFAULT_REFRESH_INTERVAL_SECS: u64 = 21600;

/// The pause between two fetches, and whether a configured value had to be
/// set aside to arrive at it. The pause is never zero.
#[derive(Clone, Copy, Debug, PartialEq, Eq, Structural)]
pub struct RefreshInterval {
    pub secs: u64,
    pub rejected: bool,
}

/// The number of seconds that `text` asks for, if it asks for any: a decimal
/// number that is positive and fits in 64 bits.
pub open spec fn valid_interval(text: Seq<char>) -> Option<u64> {
    match parse_u64_spec(text) {
        Some(secs) if secs > 0 => Some(secs),
        _ => None,
    }
}

/// The pause that follows from the variable's value, `None` standing for a
/// variable that is not set. A valid value is taken as it is; any other
/// value is rejected in favour of the default; no value means the default,
/// with nothing rejected.
pub open spec fn chosen_interval(raw: Option<Seq<char>>) -> RefreshInterval {
    match raw {
        None => RefreshInterval { secs: DEFAULT_REFRESH_INTERVAL_SECS, rejected: false },
        Some(text) => match valid_interval(text) {
            Some(secs) => RefreshInterval { secs, rejected: false },
            None => RefreshInterval { secs: DEFAULT_REFRESH_INTERVAL_SECS, rejected: true },
        },
    }
}

/// The view of an optional text.
pub open spec fn text_of(raw: Option<&str>) -> Option<Seq<char>> {
    match raw {
        None => None,
        Some(text) => Some(text@),
    }
}

/// Decides the pause between two fetches from the variable's value.
pub fn refresh_interval(raw: Option<&str>) -> (interval: RefreshInterval)
    ensures
        interval == chosen_interval(text_of(raw)),
        interval.secs > 0,
{
    match raw {
        None => RefreshInterval { secs: DEFAULT_REFRESH_INTERVAL_SECS, rejected: false },
        Some(text) => match parse_u64(text) {
            Some(secs) if secs > 0 => RefreshInterval { secs, rejected: false },
            _ => RefreshInterval { secs: DEFAULT_REFRESH_INTERVAL_SECS, rejected: true },
        },
    }
}

/// The warning that goes with a rejected value.
pub fn interval_warning() -> (warning: String)
    ensures
        warning@ == "Invalid SLEEP_DURATION value; using default of 21600 seconds."@,
{
    "Invalid SLEEP_DURATION value; using default of 21600 seconds.".to_owned()
}

/// Why no configuration could be made.
#[derive(Clone, Copy, Debug, PartialEq, Eq, Structural)]
pub enum ConfigError {
    /// The credential's variable is not set.
    MissingApiKey,
}

impl ConfigError {
    /// The error in words.
    pub fn message(&self) -> (message: String)
        ensures
            message@ == "Environment variable API_KEY is not set"@,
    {
        "Environment variable API_KEY is not set".to_owned()
    }
}

/// What the service runs with.
#[derive(Clone, Debug, PartialEq, Eq)]
pub struct Config {
    pub api_key: String,
    pub refresh_interval: RefreshInterval,
}

impl Config {
    /// Makes the configuration from the values of the two variables, `None`
    /// standing for a variable that is not set.
    ///
    /// Fails exactly when the credential is missing. Otherwise the credential
    /// is kept as it is and the pause is the one [`chosen_interval`] names.
    pub fn load(api_key: Option<String>, raw_interval: Option<&str>) -> (loaded: Result<
        Config,
        ConfigError,
    >)
        ensures
            api_key is None ==> loaded == Err::<Config, ConfigError>(ConfigError::MissingApiKey),
            api_key matches Some(key) ==> loaded matches Ok(config) && config.api_key@ == key@
                && config.refresh_interval == chosen_interval(text_of(raw_interval))
                && config.refresh_interval.secs > 0,
    {
        match api_key {
            None => Err(ConfigError::MissingApiKey),
            Some(key) => Ok(Config { api_key: key, refresh_interval: refresh_interval(raw_interval) }),
        }
    }
}

} // verus!
