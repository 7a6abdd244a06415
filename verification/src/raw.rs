//! The settings of the server before they are final: what the configuration
//! file gives, and what comes of it once the command line has had its say.

use crate::arguments::{Arguments, ArgumentsView};
use crate::congestion::{controller_named, CongestionController};
use crate::error::{ConfigError, Fault};
use crate::level::{level_named, LogLevel};
use crate::text::{decimal_within, optional_text, parse_u16, parse_u32, parse_u64, parse_usize};
use vstd::prelude::*;

verus! {

/// The settings of the server, the four that have no default still optional.
#[derive(Clone, Debug, PartialEq, Eq)]
pub struct RawConfig {
    pub port: Option<u16>,
    pub token: Option<String>,
    pub certificate: Option<String>,
    pub private_key: Option<String>,
    pub congestion_controller: CongestionController,
    /// In milliseconds.
    pub max_idle_time: u32,
    /// In milliseconds.
    pub authentication_timeout: u64,
    /// In bytes.
    pub max_udp_packet_size: usize,
    pub enable_ipv6: bool,
    pub log_level: LogLevel,
}

/// A `RawConfig` as contracts speak of it.
pub struct RawSettings {
    pub port: Option<u16>,
    pub token: Option<Seq<char>>,
    pub certificate: Option<Seq<char>>,
    pub private_key: Option<Seq<char>>,
    pub congestion_controller: CongestionController,
    pub max_idle_time: u32,
    pub authentication_timeout: u64,
    pub max_udp_packet_size: usize,
    pub enable_ipv6: bool,
    pub log_level: LogLevel,
}

impl View for RawConfig {
    type V = RawSettings;

    open spec fn view(&self) -> RawSettings {
        RawSettings {
            port: self.port,
            token: optional_text(self.token),
            certificate: optional_text(self.certificate),
            private_key: optional_text(self.private_key),
            congestion_controller: self.congestion_controller,
            max_idle_time: self.max_idle_time,
            authentication_timeout: self.authentication_timeout,
            max_udp_packet_size: self.max_udp_packet_size,
            enable_ipv6: self.enable_ipv6,
            log_level: self.log_level,
        }
    }
}

impl RawSettings {
    /// The settings of a server that is told nothing.
    pub open spec fn defaults() -> RawSettings {
        RawSettings {
            port: None,
            token: None,
            certificate: None,
            private_key: None,
            congestion_controller: CongestionController::Cubic,
            max_idle_time: 15000,
            authentication_timeout: 1000,
            max_udp_packet_size: 1536,
            enable_ipv6: false,
            log_level: LogLevel::Info,
        }
    }

    /// Whether the four settings without a default are there.
    pub open spec fn complete(self) -> bool {
        self.port is Some && self.token is Some && self.certificate is Some
            && self.private_key is Some
    }
}

/// Whether an outcome is the one that contracts expect.
pub open spec fn agrees(
    outcome: Result<RawConfig, ConfigError>,
    expected: Result<RawSettings, Fault>,
) -> bool {
    match outcome {
        Ok(raw) => expected == Ok::<RawSettings, Fault>(raw@),
        Err(error) => expected == Err::<RawSettings, Fault>(error@),
    }
}

/// A setting without a default: the command line's value where it gives one,
/// else the file's, else the setting is missing.
pub open spec fn required<T>(cli: Option<T>, file: Option<T>, name: Seq<char>) -> Result<T, Fault> {
    match cli {
        Some(value) => Ok(value),
        None => match file {
            Some(value) => Ok(value),
            None => Err(Fault::MissingOption(name)),
        },
    }
}

/// The number that a text of the command line writes, of at most `max`; no
/// number where there is no text.
pub open spec fn number(text: Option<Seq<char>>, max: nat) -> Result<Option<nat>, Fault> {
    match text {
        None => Ok(None),
        Some(t) => match decimal_within(t, max) {
            Some(n) => Ok(Some(n)),
            None => Err(Fault::ParseInt),
        },
    }
}

/// A numeric setting with a default: the number that the command line
/// writes, else `otherwise`.
pub open spec fn number_or(text: Option<Seq<char>>, max: nat, otherwise: nat) -> Result<
    nat,
    Fault,
> {
    match number(text, max) {
        Err(fault) => Err(fault),
        Ok(Some(n)) => Ok(n),
        Ok(None) => Ok(otherwise),
    }
}

/// The congestion controller: the one that the command line names, else `otherwise`.
pub open spec fn controller_or(
    name: Option<Seq<char>>,
    otherwise: CongestionController,
) -> Result<CongestionController, Fault> {
    match name {
        None => Ok(otherwise),
        Some(n) => match controller_named(n) {
            Some(controller) => Ok(controller),
            None => Err(Fault::InvalidCongestionController),
        },
    }
}

/// The log level: the one that the command line names, else `otherwise`.
pub open spec fn level_or(name: Option<Seq<char>>, otherwise: LogLevel) -> Result<
    LogLevel,
    Fault,
> {
    match name {
        None => Ok(otherwise),
        Some(n) => match level_named(n) {
            Some(level) => Ok(level),
            None => Err(Fault::ParseLogLevel),
        },
    }
}

/// `base` with the four settings without a default resolved, in the order
/// port, token, certificate, private key; the first that fails decides.
pub open spec fn with_required(cli: ArgumentsView, base: RawSettings) -> Result<
    RawSettings,
    Fault,
> {
    match number(cli.port, u16::MAX as nat) {
        Err(fault) => Err(fault),
        Ok(port) => match required(
            match port {
                Some(n) => Some(n as u16),
                None => None,
            },
            base.port,
            "port"@,
        ) {
            Err(fault) => Err(fault),
            Ok(port) => match required(cli.token, base.token, "token"@) {
                Err(fault) => Err(fault),
                Ok(token) => match required(cli.certificate, base.certificate, "certificate"@) {
                    Err(fault) => Err(fault),
                    Ok(certificate) => match required(
                        cli.private_key,
                        base.private_key,
                        "private key"@,
                    ) {
                        Err(fault) => Err(fault),
                        Ok(private_key) => Ok(
                            RawSettings {
                                port: Some(port),
                                token: Some(token),
                                certificate: Some(certificate),
                                private_key: Some(private_key),
                                ..base
                            },
                        ),
                    },
                },
            },
        }
    }
}

/// `base` with the settings that have a default overridden by the command
/// line, in the order congestion controller, idle time, authentication
/// timeout, packet size, log level; the first that fails decides. The flag
/// for IPv6 can switch it on and never off.
pub open spec fn with_optional(cli: ArgumentsView, base: RawSettings) -> Result<
    RawSettings,
    Fault,
> {
    match controller_or(cli.congestion_controller, base.congestion_controller) {
        Err(fault) => Err(fault),
        Ok(congestion_controller) => match number_or(
            cli.max_idle_time,
            u32::MAX as nat,
            base.max_idle_time as nat,
        ) {
            Err(fault) => Err(fault),
            Ok(max_idle_time) => match number_or(
                cli.authentication_timeout,
                u64::MAX as nat,
                base.authentication_timeout as nat,
            ) {
                Err(fault) => Err(fault),
                Ok(authentication_timeout) => match number_or(
                    cli.max_udp_packet_size,
                    usize::MAX as nat,
                    base.max_udp_packet_size as nat,
                ) {
                    Err(fault) => Err(fault),
                    Ok(max_udp_packet_size) => match level_or(cli.log_level, base.log_level) {
                        Err(fault) => Err(fault),
                        Ok(log_level) => Ok(
                            RawSettings {
                                congestion_controller,
                                max_idle_time: max_idle_time as u32,
                                authentication_timeout: authentication_timeout as u64,
                                max_udp_packet_size: max_udp_packet_size as usize,
                                enable_ipv6: base.enable_ipv6 || cli.enable_ipv6,
                                log_level,
                                ..base
                            },
                        ),
                    },
                },
            },
        }
    }
}

/// What the command line is laid over: the settings of the configuration
/// file where there is one, else the defaults.
pub open spec fn base(file: Option<RawSettings>) -> RawSettings {
    match file {
        Some(settings) => settings,
        None => RawSettings::defaults(),
    }
}

/// The settings that the command line and the configuration file come to.
/// The file, where there is one, takes the place of the defaults; the command
/// line overrides either.
pub open spec fn resolved(cli: ArgumentsView, file: Option<RawSettings>) -> Result<
    RawSettings,
    Fault,
> {
    match with_required(cli, base(file)) {
        Err(fault) => Err(fault),
        Ok(settings) => with_optional(cli, settings),
    }
}

impl Default for RawConfig {
    fn default() -> (raw: RawConfig)
        ensures
            raw@ == RawSettings::defaults(),
    {
        RawConfig {
            port: None,
            token: None,
            certificate: None,
            private_key: None,
            congestion_controller: crate::default::congestion_controller(),
            max_idle_time: crate::default::max_idle_time(),
            authentication_timeout: crate::default::authentication_timeout(),
            max_udp_packet_size: crate::default::max_udp_packet_size(),
            enable_ipv6: crate::default::enable_ipv6(),
            log_level: crate::default::log_level(),
        }
    }
}

/// Resolves a setting without a default: the command line's value where it
/// gives one, else the file's, else the setting is missing under `name`.
pub fn require<T>(cli: Option<T>, file: Option<T>, name: &'static str) -> (value: Result<
    T,
    ConfigError,
>)
    ensures
        match value {
            Ok(v) => required(cli, file, name@) == Ok::<T, Fault>(v),
            Err(error) => required(cli, file, name@) == Err::<T, Fault>(error@),
        },
{
    match cli {
        Some(value) => Ok(value),
        None => match file {
            Some(value) => Ok(value),
            None => Err(ConfigError::MissingOption(name)),
        },
    }
}

impl RawConfig {
    /// Whether the four settings without a default are there.
    pub fn is_complete(&self) -> (complete: bool)
        ensures
            complete == self@.complete(),
    {
        self.port.is_some() && self.token.is_some() && self.certificate.is_some()
            && self.private_key.is_some()
    }

    /// Resolves the four settings without a default.
    fn resolve_required(self, cli: &Arguments) -> (outcome: Result<RawConfig, ConfigError>)
        ensures
            agrees(outcome, with_required(cli@, self@)),
    {
        let port = match &cli.port {
            Some(text) => match parse_u16(text.as_str()) {
                Ok(port) => Some(port),
                Err(error) => {
                    return Err(ConfigError::ParseInt(error));
                },
            },
            None => None,
        };
        let port = match require(port, self.port, "port") {
            Ok(port) => port,
            Err(error) => {
                return Err(error);
            },
        };
        let token = match require(cli.token.clone(), self.token, "token") {
            Ok(token) => token,
            Err(error) => {
                return Err(error);
            },
        };
        let certificate = match require(cli.certificate.clone(), self.certificate, "certificate") {
            Ok(certificate) => certificate,
            Err(error) => {
                return Err(error);
            },
        };
        let private_key = match require(cli.private_key.clone(), self.private_key, "private key") {
            Ok(private_key) => private_key,
            Err(error) => {
                return Err(error);
            },
        };
        Ok(
            RawConfig {
                port: Some(port),
                token: Some(token),
                certificate: Some(certificate),
                private_key: Some(private_key),
                congestion_controller: self.congestion_controller,
                max_idle_time: self.max_idle_time,
                authentication_timeout: self.authentication_timeout,
                max_udp_packet_size: self.max_udp_packet_size,
                enable_ipv6: self.enable_ipv6,
                log_level: self.log_level,
            },
        )
    }

    /// Overrides the settings that have a default by what the command line gives.
    fn resolve_optional(self, cli: &Arguments) -> (outcome: Result<RawConfig, ConfigError>)
        ensures
            agrees(outcome, with_optional(cli@, self@)),
    {
        let mut raw = self;
        if let Some(name) = &cli.congestion_controller {
            match CongestionController::from_str(name.as_str()) {
                Ok(controller) => {
                    raw.congestion_controller = controller;
                },
                Err(error) => {
                    return Err(error);
                },
            }
        }
        if let Some(text) = &cli.max_idle_time {
            match parse_u32(text.as_str()) {
                Ok(milliseconds) => {
                    raw.max_idle_time = milliseconds;
                },
                Err(error) => {
                    return Err(ConfigError::ParseInt(error));
                },
            }
        }
        if let Some(text) = &cli.authentication_timeout {
            match parse_u64(text.as_str()) {
                Ok(milliseconds) => {
                    raw.authentication_timeout = milliseconds;
                },
                Err(error) => {
                    return Err(ConfigError::ParseInt(error));
                },
            }
        }
        if let Some(text) = &cli.max_udp_packet_size {
            match parse_usize(text.as_str()) {
                Ok(bytes) => {
                    raw.max_udp_packet_size = bytes;
                },
                Err(error) => {
                    return Err(ConfigError::ParseInt(error));
                },
            }
        }
        raw.enable_ipv6 = raw.enable_ipv6 || cli.enable_ipv6;
        if let Some(name) = &cli.log_level {
            match LogLevel::from_str(name.as_str()) {
                Ok(level) => {
                    raw.log_level = level;
                },
                Err(error) => {
                    return Err(error);
                },
            }
        }
        Ok(raw)
    }

    /// Resolves the settings of the server from what the command line gives
    /// and from what loading the configuration file came to, `None` where the
    /// command line names no file. A file that could not be loaded ends the
    /// matter with its error, before any setting is looked at.
    pub fn parse(arguments: &Arguments, file: Option<Result<RawConfig, ConfigError>>) -> (outcome:
        Result<RawConfig, ConfigError>)
        ensures
            match file {
                Some(Err(failure)) => outcome == Err::<RawConfig, ConfigError>(failure),
                Some(Ok(held)) => agrees(outcome, resolved(arguments@, Some(held@))),
                None => agrees(outcome, resolved(arguments@, None)),
            },
            outcome matches Ok(raw) ==> raw@.complete(),
    {
        let base = match file {
            Some(Ok(raw)) => raw,
            Some(Err(failure)) => {
                return Err(failure);
            },
            None => RawConfig::default(),
        };
        match base.resolve_required(arguments) {
            Err(error) => Err(error),
            Ok(raw) => raw.resolve_optional(arguments),
        }
    }
}

/// Whether the command line gives the four settings without a default, with
/// a port that is a number, and nothing else.
pub open spec fn gives_required_only(cli: ArgumentsView) -> bool {
    &&& cli.port matches Some(port) && decimal_within(port, u16::MAX as nat) is Some
    &&& cli.token is Some
    &&& cli.certificate is Some
    &&& cli.private_key is Some
    &&& cli.congestion_controller is None
    &&& cli.max_idle_time is None
    &&& cli.authentication_timeout is None
    &&& cli.max_udp_packet_size is None
    &&& !cli.enable_ipv6
    &&& cli.log_level is None
}

/// A command line that gives the four settings without a default and nothing
/// else, with no configuration file, resolves to the documented default in
/// every other setting.
pub proof fn lemma_required_only_leaves_defaults(cli: ArgumentsView)
    requires
        gives_required_only(cli),
    ensures
        resolved(cli, None) == Ok::<RawSettings, Fault>(
            RawSettings {
                port: Some(decimal_within(cli.port->0, u16::MAX as nat)->0 as u16),
                token: cli.token,
                certificate: cli.certificate,
                private_key: cli.private_key,
                congestion_controller: CongestionController::Cubic,
                max_idle_time: 15000,
                authentication_timeout: 1000,
                max_udp_packet_size: 1536,
                enable_ipv6: false,
                log_level: LogLevel::Info,
            },
        ),
{
}

/// What the command line gives for a setting is what the setting resolves
/// to, whatever the configuration file holds for it.
pub proof fn lemma_command_line_overrides(
    cli: ArgumentsView,
    file: Option<RawSettings>,
    settings: RawSettings,
)
    requires
        resolved(cli, file) == Ok::<RawSettings, Fault>(settings),
    ensures
        cli.port matches Some(text) ==> decimal_within(text, u16::MAX as nat) == Some(
            settings.port->0 as nat,
        ),
        cli.token is Some ==> settings.token == cli.token,
        cli.certificate is Some ==> settings.certificate == cli.certificate,
        cli.private_key is Some ==> settings.private_key == cli.private_key,
        cli.congestion_controller matches Some(name) ==> controller_named(name) == Some(
            settings.congestion_controller,
        ),
        cli.max_idle_time matches Some(text) ==> decimal_within(text, u32::MAX as nat) == Some(
            settings.max_idle_time as nat,
        ),
        cli.authentication_timeout matches Some(text) ==> decimal_within(text, u64::MAX as nat)
            == Some(settings.authentication_timeout as nat),
        cli.max_udp_packet_size matches Some(text) ==> decimal_within(text, usize::MAX as nat)
            == Some(settings.max_udp_packet_size as nat),
        cli.log_level matches Some(name) ==> level_named(name) == Some(settings.log_level),
        cli.enable_ipv6 ==> settings.enable_ipv6,
{
}

/// Where the command line is silent on a setting, the setting is what the
/// configuration file holds, or the default where there is no file.
pub proof fn lemma_file_stands_otherwise(
    cli: ArgumentsView,
    file: Option<RawSettings>,
    settings: RawSettings,
)
    requires
        resolved(cli, file) == Ok::<RawSettings, Fault>(settings),
    ensures
        cli.port is None ==> settings.port == base(file).port,
        cli.token is None ==> settings.token == base(file).token,
        cli.certificate is None ==> settings.certificate == base(file).certificate,
        cli.private_key is None ==> settings.private_key == base(file).private_key,
        cli.congestion_controller is None ==> settings.congestion_controller == base(
            file,
        ).congestion_controller,
        cli.max_idle_time is None ==> settings.max_idle_time == base(file).max_idle_time,
        cli.authentication_timeout is None ==> settings.authentication_timeout == base(
            file,
        ).authentication_timeout,
        cli.max_udp_packet_size is None ==> settings.max_udp_packet_size == base(
            file,
        ).max_udp_packet_size,
        cli.log_level is None ==> settings.log_level == base(file).log_level,
        !cli.enable_ipv6 ==> settings.enable_ipv6 == base(file).enable_ipv6,
{
}

/// The flag for IPv6 on the command line switches IPv6 on, also where the
/// configuration file switches it off.
pub proof fn lemma_flag_enables_ipv6(
    cli: ArgumentsView,
    file: Option<RawSettings>,
    settings: RawSettings,
)
    requires
        cli.enable_ipv6,
        resolved(cli, file) == Ok::<RawSettings, Fault>(settings),
    ensures
        settings.enable_ipv6,
{
}

/// Settings that resolve are complete.
pub proof fn lemma_resolved_is_complete(
    cli: ArgumentsView,
    file: Option<RawSettings>,
    settings: RawSettings,
)
    requires
        resolved(cli, file) == Ok::<RawSettings, Fault>(settings),
    ensures
        settings.complete(),
{
}

/// Whether the port is at no fault: the command line gives one that is a
/// number, or gives none where the file holds one.
pub open spec fn port_resolves(cli: ArgumentsView, file: Option<RawSettings>) -> bool {
    match cli.port {
        Some(text) => decimal_within(text, u16::MAX as nat) is Some,
        None => base(file).port is Some,
    }
}

/// A port that neither the command line nor the file gives is missing.
pub proof fn lemma_missing_port(cli: ArgumentsView, file: Option<RawSettings>)
    requires
        cli.port is None,
        base(file).port is None,
    ensures
        resolved(cli, file) == Err::<RawSettings, Fault>(Fault::MissingOption("port"@)),
{
}

/// A token that neither the command line nor the file gives is missing,
/// where the port is not at fault.
pub proof fn lemma_missing_token(cli: ArgumentsView, file: Option<RawSettings>)
    requires
        cli.token is None,
        base(file).token is None,
        port_resolves(cli, file),
    ensures
        resolved(cli, file) == Err::<RawSettings, Fault>(Fault::MissingOption("token"@)),
{
}

/// A certificate that neither the command line nor the file gives is
/// missing, where neither the port nor the token is at fault.
pub proof fn lemma_missing_certificate(cli: ArgumentsView, file: Option<RawSettings>)
    requires
        cli.certificate is None,
        base(file).certificate is None,
        port_resolves(cli, file),
        cli.token is Some || base(file).token is Some,
    ensures
        resolved(cli, file) == Err::<RawSettings, Fault>(Fault::MissingOption("certificate"@)),
{
}

/// A private key that neither the command line nor the file gives is
/// missing, where none of the port, the token and the certificate is at fault.
pub proof fn lemma_missing_private_key(cli: ArgumentsView, file: Option<RawSettings>)
    requires
        cli.private_key is None,
        base(file).private_key is None,
        port_resolves(cli, file),
        cli.token is Some || base(file).token is Some,
        cli.certificate is Some || base(file).certificate
            is Some,
    ensures
        resolved(cli, file) == Err::<RawSettings, Fault>(Fault::MissingOption("private key"@)),
{
}

/// Where a required setting is in neither source, nothing is resolved: the
/// outcome names a missing setting, or the port of the command line is no number.
pub proof fn lemma_incomplete_sources_fail(cli: ArgumentsView, file: Option<RawSettings>)
    requires
        ({
            ||| cli.port is None && base(file).port is None
            ||| cli.token is None && base(file).token is None
            ||| cli.certificate is None && base(file).certificate is None
            ||| cli.private_key is None && base(file).private_key is None
        }),
    ensures
        resolved(cli, file) matches Err(fault) && (fault is MissingOption || fault
            == Fault::ParseInt),
{
}

/// A name on the command line that names no congestion controller is
/// refused, where the four settings without a default resolve.
pub proof fn lemma_unknown_controller_refused(
    cli: ArgumentsView,
    file: Option<RawSettings>,
    name: Seq<char>,
)
    requires
        cli.congestion_controller == Some(name),
        controller_named(name) is None,
        with_required(cli, base(file)) is Ok,
    ensures
        resolved(cli, file) == Err::<RawSettings, Fault>(Fault::InvalidCongestionController),
{
}

} // verus!
