//! The process environment and the log output format, read from text.

use vstd::prelude::*;
use crate::text::{lower_of, lowercase, same_chars};

verus! {

/// Application environment; it decides whether error messages are redacted.
#[derive(Clone, Copy, Debug, PartialEq, Eq, Structural)]
pub enum Environment {
    Development,
    Production,
}

/// The environment that a lower-cased name selects: `production` or `prod`
/// select production, anything else development.
pub open spec fn environment_named(l: Seq<char>) -> Environment {
    if l == "production"@ || l == "prod"@ {
        Environment::Production
    } else {
        Environment::Development
    }
}

impl Environment {
    /// The environment that an already lower-cased name selects.
    pub fn from_lowercase(l: &str) -> (r: Environment)
        ensures
            r == environment_named(l@),
    {
        if same_chars(l, "production") || same_chars(l, "prod") {
            Environment::Production
        } else {
            Environment::Development
        }
    }

    /// Parses a name case-insensitively; never fails.
    pub fn parse(s: &str) -> (r: Environment)
        ensures
            r == environment_named(lower_of(s@)),
    {
        let l = lowercase(s);
        Self::from_lowercase(l.as_str())
    }

    pub fn is_production(&self) -> (r: bool)
        ensures
            r == (*self == Environment::Production),
    {
        match self {
            Environment::Production => true,
            Environment::Development => false,
        }
    }

    pub fn is_development(&self) -> (r: bool)
        ensures
            r == (*self == Environment::Development),
    {
        match self {
            Environment::Production => false,
            Environment::Development => true,
        }
    }
}

impl Default for Environment {
    fn default() -> (r: Environment)
        ensures
            r == Environment::Development,
    {
        Environment::Development
    }
}

impl std::str::FromStr for Environment {
    type Err = std::convert::Infallible;

    fn from_str(s: &str) -> Result<Environment, std::convert::Infallible> {
        Ok(Environment::parse(s))
    }
}

/// Log output format.
#[derive(Clone, Copy, Debug, PartialEq, Eq, Structural)]
pub enum LogFormat {
    /// Human-readable text.
    Text,
    /// One JSON object per line.
    Json,
}

/// The format that a lower-cased name selects: `json`, else text.
pub open spec fn log_format_named(l: Seq<char>) -> LogFormat {
    if l == "json"@ {
        LogFormat::Json
    } else {
        LogFormat::Text
    }
}

impl LogFormat {
    /// The format that an already lower-cased name selects.
    pub fn from_lowercase(l: &str) -> (r: LogFormat)
        ensures
            r == log_format_named(l@),
    {
        if same_chars(l, "json") {
            LogFormat::Json
        } else {
            LogFormat::Text
        }
    }

    /// Parses a name case-insensitively; never fails.
    pub fn parse(s: &str) -> (r: LogFormat)
        ensures
            r == log_format_named(lower_of(s@)),
    {
        let l = lowercase(s);
        Self::from_lowercase(l.as_str())
    }
}

impl Default for LogFormat {
    fn default() -> (r: LogFormat)
        ensures
            r == LogFormat::Text,
    {
        LogFormat::Text
    }
}

impl std::str::FromStr for LogFormat {
    type Err = std::convert::Infallible;

    fn from_str(s: &str) -> Result<LogFormat, std::convert::Infallible> {
        Ok(LogFormat::parse(s))
    }
}

} // verus!
