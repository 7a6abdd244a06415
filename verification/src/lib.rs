//! Resolves the configuration of a QUIC server from its command line and an
//! optional configuration file.
//!
//! The work goes in three steps, between which the caller reads the files
//! that the step before has named: `Arguments::parse` reads the command line,
//! `RawConfig::parse` lays it over the configuration file and the defaults,
//! and `Config::parse` makes the final configuration of the settings and the
//! certificate material.

pub mod arguments;
pub mod config;
pub mod congestion;
pub mod default;
pub mod digest;
pub mod error;
pub mod level;
pub mod options;
pub mod raw;
pub mod text;
pub mod transport;

pub use arguments::Arguments;
pub use config::Config;
pub use congestion::CongestionController;
pub use error::ConfigError;
pub use level::LogLevel;
pub use raw::RawConfig;
