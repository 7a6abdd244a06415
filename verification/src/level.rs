//! The verbosity of the log.

use crate::error::ConfigError;
use crate::text::same_ignoring_case;
use log::{LevelFilter, ParseLevelError};
use std::str::FromStr;
use vstd::prelude::*;

verus! {

/// `log::ParseLevelError`: the error of a name that names no level. It is
/// carried, never read.
#[verifier::external_type_specification]
#[verifier::external_body]
pub struct ExParseLevelError(log::ParseLevelError);

/// The verbosity of the log, from silent to most verbose.
#[derive(Clone, Copy, Debug, PartialEq, Eq, PartialOrd, Ord, Hash, Structural)]
pub enum LogLevel {
    Off,
    Error,
    Warn,
    Info,
    Debug,
    Trace,
}

/// The level that `name` names, whatever the case of its letters.
pub open spec fn level_named(name: Seq<char>) -> Option<LogLevel> {
    if same_ignoring_case(name, "off"@) {
        Some(LogLevel::Off)
    } else if same_ignoring_case(name, "error"@) {
        Some(LogLevel::Error)
    } else if same_ignoring_case(name, "warn"@) {
        Some(LogLevel::Warn)
    } else if same_ignoring_case(name, "info"@) {
        Some(LogLevel::Info)
    } else if same_ignoring_case(name, "debug"@) {
        Some(LogLevel::Debug)
    } else if same_ignoring_case(name, "trace"@) {
        Some(LogLevel::Trace)
    } else {
        None
    }
}

/// `LevelFilter::from_str` of the `log` crate: the level whose name is `name`
/// but for the case of its letters, an error where there is none.
#[verifier::external_body]
fn parse_level_filter(name: &str) -> (level: Result<LogLevel, ParseLevelError>)
    ensures
        match level {
            Ok(l) => level_named(name@) == Some(l),
            Err(_) => level_named(name@) is None,
        },
{
    match LevelFilter::from_str(name) {
        Ok(LevelFilter::Off) => Ok(LogLevel::Off),
        Ok(LevelFilter::Error) => Ok(LogLevel::Error),
        Ok(LevelFilter::Warn) => Ok(LogLevel::Warn),
        Ok(LevelFilter::Info) => Ok(LogLevel::Info),
        Ok(LevelFilter::Debug) => Ok(LogLevel::Debug),
        Ok(LevelFilter::Trace) => Ok(LogLevel::Trace),
        Err(error) => Err(error),
    }
}

impl LogLevel {
    /// Reads the name of a log level.
    pub fn from_str(name: &str) -> (level: Result<LogLevel, ConfigError>)
        ensures
            match level {
                Ok(l) => level_named(name@) == Some(l),
                Err(error) => level_named(name@) is None && error@ == crate::error::Fault::ParseLogLevel,
            },
    {
        match parse_level_filter(name) {
            Ok(level) => Ok(level),
            Err(error) => Err(ConfigError::ParseLogLevel(error)),
        }
    }
}

} // verus!
