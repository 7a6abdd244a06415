//! The ways in which resolving the configuration ends without one.

use core::num::ParseIntError;
use log::ParseLevelError;
use vstd::prelude::*;

verus! {

/// `std::io::Error`: why a file could not be read. It is carried, never read.
#[verifier::external_type_specification]
#[verifier::external_body]
pub struct ExIoError(std::io::Error);

/// `serde_json::Error`: why a text is no configuration file. It is carried,
/// never read.
#[verifier::external_type_specification]
#[verifier::external_body]
pub struct ExJsonError(serde_json::Error);

/// How a command line can fail to fit the declared options.
#[derive(Clone, Copy, Debug, PartialEq, Eq, Structural)]
pub enum FailureKind {
    /// An option that takes a value stands without one.
    ArgumentMissing,
    /// An option that was never declared.
    UnrecognizedOption,
    /// A required option is absent.
    OptionMissing,
    /// An option that may stand once stands more often.
    OptionDuplicated,
    /// A flag was given a value.
    UnexpectedArgument,
}

/// A command line that does not fit the declared options, with the option at fault.
#[derive(Clone, Debug, PartialEq, Eq)]
pub struct ArgumentFailure {
    pub kind: FailureKind,
    pub option: String,
}

/// An `ArgumentFailure` as contracts speak of it.
pub struct ArgumentFault {
    pub kind: FailureKind,
    pub option: Seq<char>,
}

impl View for ArgumentFailure {
    type V = ArgumentFault;

    open spec fn view(&self) -> ArgumentFault {
        ArgumentFault { kind: self.kind, option: self.option@ }
    }
}

/// Why no configuration came out. `Help` and `Version` are no faults of the
/// user: they carry the text that was asked for.
#[derive(Debug)]
pub enum ConfigError {
    /// The usage text.
    Help(String),
    /// The version.
    Version(&'static str),
    /// The file at the path could not be read.
    Io(String, std::io::Error),
    /// The configuration file is no JSON, or not of the settings of the server.
    ParseConfigJson(serde_json::Error),
    /// The command line does not fit the declared options.
    ParseArgument(ArgumentFailure),
    /// Arguments that belong to no option, joined by `", "`.
    UnexpectedArguments(String),
    /// A required setting that neither the command line nor the file gives.
    MissingOption(&'static str),
    /// A number was expected and the text writes none that fits.
    ParseInt(ParseIntError),
    /// The name of no congestion controller.
    InvalidCongestionController,
    /// The name of no log level.
    ParseLogLevel(ParseLevelError),
    /// The certificate chain and key make no TLS configuration.
    Rustls(rustls::Error),
}

/// A `ConfigError` as contracts speak of it: what it carries from outside
/// this library is left out.
pub enum Fault {
    Help(Seq<char>),
    Version(Seq<char>),
    Io(Seq<char>),
    ParseConfigJson,
    ParseArgument(ArgumentFault),
    UnexpectedArguments(Seq<char>),
    MissingOption(Seq<char>),
    ParseInt,
    InvalidCongestionController,
    ParseLogLevel,
    Rustls,
}

impl View for ConfigError {
    type V = Fault;

    open spec fn view(&self) -> Fault {
        match self {
            ConfigError::Help(usage) => Fault::Help(usage@),
            ConfigError::Version(version) => Fault::Version(version@),
            ConfigError::Io(path, _) => Fault::Io(path@),
            ConfigError::ParseConfigJson(_) => Fault::ParseConfigJson,
            ConfigError::ParseArgument(failure) => Fault::ParseArgument(failure@),
            ConfigError::UnexpectedArguments(arguments) => Fault::UnexpectedArguments(arguments@),
            ConfigError::MissingOption(name) => Fault::MissingOption(name@),
            ConfigError::ParseInt(_) => Fault::ParseInt,
            ConfigError::InvalidCongestionController => Fault::InvalidCongestionController,
            ConfigError::ParseLogLevel(_) => Fault::ParseLogLevel,
            ConfigError::Rustls(_) => Fault::Rustls,
        }
    }
}

} // verus!
