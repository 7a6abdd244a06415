//! The transport and its security, as the `quinn` crate configures them.

use crate::congestion::CongestionController;
use quinn::congestion::{BbrConfig, CubicConfig, NewRenoConfig};
use quinn::{IdleTimeout, ServerConfig, TransportConfig, VarInt};
use std::sync::Arc;
use vstd::prelude::*;

verus! {

/// `quinn::ServerConfig`: the configuration of a QUIC server. Of what one
/// holds, the certificate chain is spoken of, through `server_chain`, and
/// the idle timeout and the congestion controller of its transport settings,
/// through `server_idle_timeout` and `server_congestion`.
#[verifier::external_type_specification]
#[verifier::external_body]
pub struct ExServerConfig(quinn::ServerConfig);

/// `quinn::TransportConfig`: the transport settings of QUIC connections. Of
/// what one holds, only the idle timeout and the congestion controller are
/// spoken of, through `idle_timeout` and `congestion`.
#[verifier::external_type_specification]
#[verifier::external_body]
pub struct ExTransportConfig(quinn::TransportConfig);

/// `rustls::Error`: why certificates and key make no TLS configuration. It
/// is carried, never read.
#[verifier::external_type_specification]
#[verifier::external_body]
pub struct ExRustlsError(rustls::Error);

/// The idle timeout that transport settings hold, in milliseconds; `None`
/// where a connection may idle for ever.
pub uninterp spec fn idle_timeout(transport: TransportConfig) -> Option<u64>;

/// The congestion controller, with the tuning that the crate gives it by
/// default, that transport settings hold.
pub uninterp spec fn congestion(transport: TransportConfig) -> CongestionController;

/// Whether the bytes are the DER encoding of a private key of a kind that
/// the TLS library supports: RSA, ECDSA or Ed25519, as
/// `rustls::sign::any_supported_type` reads them. That the bytes are such a
/// key is needed for a signing key to be made of them, and is not enough:
/// for an ECDSA key the library also draws from the system's random
/// generator, and gives the key up where the draw fails.
pub uninterp spec fn usable_key(key: Seq<u8>) -> bool;

/// The chain of DER-encoded certificates that a server configuration
/// presents to its clients.
pub uninterp spec fn server_chain(server: ServerConfig) -> Seq<Seq<u8>>;

/// The certificates of a chain as contracts speak of them.
pub open spec fn chain_of(certificates: Seq<Vec<u8>>) -> Seq<Seq<u8>> {
    certificates.map_values(|certificate: Vec<u8>| certificate@)
}

/// The idle timeout of the transport settings that a server configuration holds.
pub uninterp spec fn server_idle_timeout(server: ServerConfig) -> Option<u64>;

/// The congestion controller of the transport settings that a server
/// configuration holds.
pub uninterp spec fn server_congestion(server: ServerConfig) -> CongestionController;

/// `ServerConfig::with_single_cert`: a server configuration that presents the
/// chain of DER-encoded certificates as it is given and signs with the
/// DER-encoded key, or the error of the TLS library. There is a configuration
/// only where the key is one of a supported kind; whether there is one then
/// may rest on the system's random generator, so no more is said. The chain
/// is not looked at. The configuration holds a key for handshake tokens that
/// is drawn at random.
#[verifier::external_body]
pub(crate) fn server_config_with_single_cert(
    certificates: Vec<Vec<u8>>,
    private_key: Vec<u8>,
) -> (server: Result<ServerConfig, rustls::Error>)
    ensures
        server is Ok ==> usable_key(private_key@),
        server matches Ok(config) ==> server_chain(config) == chain_of(certificates@),
{
    ServerConfig::with_single_cert(
        certificates.into_iter().map(rustls::Certificate).collect(),
        rustls::PrivateKey(private_key),
    )
}

/// `TransportConfig::default`: the transport settings of the crate.
#[verifier::external_body]
pub(crate) fn default_transport() -> (transport: TransportConfig) {
    TransportConfig::default()
}

/// `TransportConfig::congestion_controller_factory` with `CubicConfig::default`.
#[verifier::external_body]
pub(crate) fn use_cubic(transport: &mut TransportConfig)
    ensures
        congestion(*final(transport)) == CongestionController::Cubic,
        idle_timeout(*final(transport)) == idle_timeout(*old(transport)),
{
    transport.congestion_controller_factory(Arc::new(CubicConfig::default()));
}

/// `TransportConfig::congestion_controller_factory` with `NewRenoConfig::default`.
#[verifier::external_body]
pub(crate) fn use_new_reno(transport: &mut TransportConfig)
    ensures
        congestion(*final(transport)) == CongestionController::NewReno,
        idle_timeout(*final(transport)) == idle_timeout(*old(transport)),
{
    transport.congestion_controller_factory(Arc::new(NewRenoConfig::default()));
}

/// `TransportConfig::congestion_controller_factory` with `BbrConfig::default`.
#[verifier::external_body]
pub(crate) fn use_bbr(transport: &mut TransportConfig)
    ensures
        congestion(*final(transport)) == CongestionController::Bbr,
        idle_timeout(*final(transport)) == idle_timeout(*old(transport)),
{
    transport.congestion_controller_factory(Arc::new(BbrConfig::default()));
}

/// `TransportConfig::max_idle_timeout` with the timeout that
/// `VarInt::from_u32` and `IdleTimeout::from` make of `milliseconds`.
#[verifier::external_body]
pub(crate) fn set_max_idle_timeout(transport: &mut TransportConfig, milliseconds: u32)
    ensures
        idle_timeout(*final(transport)) == Some(milliseconds as u64),
        congestion(*final(transport)) == congestion(*old(transport)),
{
    transport.max_idle_timeout(Some(IdleTimeout::from(VarInt::from_u32(milliseconds))));
}

/// Assigns the field `transport` of a `ServerConfig`: the server
/// configuration then holds the transport settings given, and the
/// certificate chain that it held.
#[verifier::external_body]
pub(crate) fn set_transport(server: &mut ServerConfig, transport: TransportConfig)
    ensures
        server_idle_timeout(*final(server)) == idle_timeout(transport),
        server_congestion(*final(server)) == congestion(transport),
        server_chain(*final(server)) == server_chain(*old(server)),
{
    server.transport = Arc::new(transport);
}

} // verus!
