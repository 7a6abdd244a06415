//! The configuration that the server runs with.

use crate::arguments::ArgumentsView;
use crate::congestion::CongestionController;
use crate::digest::{token_digest, token_digest_of};
use crate::error::{ConfigError, Fault};
use crate::level::LogLevel;
use crate::raw::{
    gives_required_only, lemma_required_only_leaves_defaults, resolved, RawConfig, RawSettings,
};
use crate::transport::{
    chain_of, default_transport, server_chain, server_config_with_single_cert, server_congestion,
    server_idle_timeout, set_max_idle_timeout, set_transport, usable_key, use_bbr, use_cubic,
    use_new_reno,
};
use core::time::Duration;
use quinn::ServerConfig;
use vstd::prelude::*;

verus! {

/// The nanoseconds that a duration holds, all of them: what
/// `Duration::as_nanos` returns.
pub uninterp spec fn nanoseconds(duration: Duration) -> nat;

/// The nanoseconds of so many milliseconds.
pub open spec fn of_milliseconds(milliseconds: u64) -> nat {
    milliseconds as nat * 1_000_000
}

/// The whole milliseconds that a duration holds.
pub open spec fn milliseconds(duration: Duration) -> nat {
    nanoseconds(duration) / 1_000_000
}

/// `Duration::from_millis`: the duration of so many milliseconds, and of no
/// nanosecond more.
pub assume_specification[ Duration::from_millis ](millis: u64) -> (duration: Duration)
    ensures
        nanoseconds(duration) == of_milliseconds(millis),
;

/// The configuration of the server, final. The token is not in it, only its digest.
pub struct Config {
    pub server_config: ServerConfig,
    pub port: u16,
    pub token_digest: [u8; 32],
    pub authentication_timeout: Duration,
    pub max_udp_packet_size: usize,
    pub enable_ipv6: bool,
    pub log_level: LogLevel,
}

impl Config {
    /// Whether this configuration holds what `raw` sets.
    pub open spec fn holds(self, raw: RawSettings) -> bool {
        &&& server_congestion(self.server_config) == raw.congestion_controller
        &&& server_idle_timeout(self.server_config) == Some(raw.max_idle_time as u64)
        &&& Some(self.port) == raw.port
        &&& Some(self.token_digest) == match raw.token {
            Some(token) => Some(token_digest_of(token)),
            None => None,
        }
        &&& nanoseconds(self.authentication_timeout) == of_milliseconds(
            raw.authentication_timeout,
        )
        &&& self.max_udp_packet_size == raw.max_udp_packet_size
        &&& self.enable_ipv6 == raw.enable_ipv6
        &&& self.log_level == raw.log_level
    }

    /// Makes the final configuration of complete settings and the outcome of
    /// building the security configuration: the error of the TLS library
    /// where there is one, else a configuration that holds the settings and
    /// presents the certificate chain of the security configuration given.
    pub fn assemble(raw: RawConfig, server: Result<ServerConfig, rustls::Error>) -> (outcome:
        Result<Config, ConfigError>)
        requires
            raw@.complete(),
        ensures
            match server {
                Ok(given) => outcome matches Ok(config) && config.holds(raw@) && server_chain(
                    config.server_config,
                ) == server_chain(given),
                Err(e) => outcome matches Err(ConfigError::Rustls(error)) && error == e,
            },
    {
        let mut server_config = match server {
            Ok(server_config) => server_config,
            Err(error) => {
                return Err(ConfigError::Rustls(error));
            },
        };
        let mut transport = default_transport();
        match raw.congestion_controller {
            CongestionController::Bbr => {
                use_bbr(&mut transport);
            },
            CongestionController::Cubic => {
                use_cubic(&mut transport);
            },
            CongestionController::NewReno => {
                use_new_reno(&mut transport);
            },
        }
        set_max_idle_timeout(&mut transport, raw.max_idle_time);
        set_transport(&mut server_config, transport);
        let port = raw.port.unwrap();
        let token = raw.token.unwrap();
        let token_digest = token_digest(token.as_str());
        let authentication_timeout = Duration::from_millis(raw.authentication_timeout);
        Ok(
            Config {
                server_config,
                port,
                token_digest,
                authentication_timeout,
                max_udp_packet_size: raw.max_udp_packet_size,
                enable_ipv6: raw.enable_ipv6,
                log_level: raw.log_level,
            },
        )
    }

    /// Makes the final configuration of complete settings, the chain of
    /// DER-encoded certificates and the DER-encoded private key. There is a
    /// configuration only where the key is one of a kind that the TLS library
    /// supports; it holds the settings and presents the chain as given.
    /// Whether a key of a supported kind makes a configuration is for the TLS
    /// library to say, and its error is the only one.
    pub fn parse(raw: RawConfig, certificates: Vec<Vec<u8>>, private_key: Vec<u8>) -> (outcome:
        Result<Config, ConfigError>)
        requires
            raw@.complete(),
        ensures
            outcome is Ok ==> usable_key(private_key@),
            match outcome {
                Ok(config) => config.holds(raw@) && server_chain(config.server_config)
                    == chain_of(certificates@),
                Err(error) => error@ == Fault::Rustls,
            },
    {
        Config::assemble(raw, server_config_with_single_cert(certificates, private_key))
    }
}

/// A configuration made of settings that a command line with the four
/// settings without a default and nothing else resolves to, with no
/// configuration file, holds the documented default in every other setting.
pub proof fn lemma_defaults_reach_the_configuration(
    cli: ArgumentsView,
    raw: RawSettings,
    config: Config,
)
    requires
        gives_required_only(cli),
        resolved(cli, None) == Ok::<RawSettings, Fault>(raw),
        config.holds(raw),
    ensures
        server_congestion(config.server_config) == CongestionController::Cubic,
        server_idle_timeout(config.server_config) == Some(15000u64),
        milliseconds(config.authentication_timeout) == 1000,
        nanoseconds(config.authentication_timeout) == 1_000_000_000,
        config.max_udp_packet_size == 1536,
        !config.enable_ipv6,
        config.log_level == LogLevel::Info,
{
    lemma_required_only_leaves_defaults(cli);
}

/// Configurations that hold the same settings hold the same digest: the
/// digest depends on the token alone.
pub proof fn lemma_same_token_same_digest(first: Config, second: Config, raw: RawSettings)
    requires
        raw.complete(),
        first.holds(raw),
        second.holds(raw),
    ensures
        first.token_digest == second.token_digest,
        first.token_digest == token_digest_of(raw.token->0),
{
}

} // verus!
