//! The rotation configuration record: loaded once at startup, immutable for
//! the life of the process.

use vstd::prelude::*;

verus! {

/// The ordering policy for picking the next wallpaper.
#[derive(Debug, Clone, Copy, PartialEq, Eq, Structural)]
#[allow(non_camel_case_types)]
pub enum Order {
    /// A uniform, independent draw from the pool on every tick.
    random,
    /// The first path of the pool in construction order. The name is kept
    /// from the configuration file's vocabulary; the pool is not sorted, so
    /// this picks by declaration order, not lexicographically.
    alphabetical,
}

/// Why a configuration record was rejected at startup.
#[derive(Debug, Clone, Copy, PartialEq, Eq, Structural)]
pub enum ConfigError {
    /// The rotation interval must be a positive number of seconds.
    InvalidDuration,
}

/// The validated configuration record.
#[derive(Debug)]
pub struct Config {
    /// Schema version, informational only.
    pub version: u64,
    /// Source patterns that are always in the pool.
    pub sources: Option<Vec<String>>,
    /// Source patterns added when light is preferred, no preference is
    /// reported, or the preference cannot be queried.
    pub sources_light: Option<Vec<String>>,
    /// Source patterns added when dark is preferred.
    pub sources_dark: Option<Vec<String>>,
    /// Seconds between two ticks; always positive.
    pub duration: u64,
    /// The ordering policy for selection.
    pub order: Order,
}

impl Config {
    /// A well-formed configuration rotates on a positive interval.
    pub open spec fn wf(self) -> bool {
        self.duration > 0
    }

    /// Validates a configuration record. Every field is taken as given; an
    /// interval of zero seconds is the one rejected value, and rejection is
    /// fatal at startup.
    pub fn new(
        version: u64,
        sources: Option<Vec<String>>,
        sources_light: Option<Vec<String>>,
        sources_dark: Option<Vec<String>>,
        duration: u64,
        order: Order,
    ) -> (r: Result<Config, ConfigError>)
        ensures
            r is Ok <==> duration > 0,
            r matches Ok(c) ==> c == (Config {
                version,
                sources,
                sources_light,
                sources_dark,
                duration,
                order,
            }) && c.wf(),
            r matches Err(e) ==> e == ConfigError::InvalidDuration,
    {
        if duration == 0 {
            return Err(ConfigError::InvalidDuration);
        }
        Ok(Config { version, sources, sources_light, sources_dark, duration, order })
    }
}

} // verus!
