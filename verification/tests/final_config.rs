use server_config::config::Config;
use server_config::congestion::CongestionController;
use server_config::digest::token_digest;
use server_config::error::ConfigError;
use server_config::level::LogLevel;
use server_config::raw::RawConfig;
use std::time::Duration;

/// An Ed25519 key in PKCS #8, with the seed 1, 2, .., 32.
fn key() -> Vec<u8> {
    let mut der = vec![
        0x30, 0x2e, 0x02, 0x01, 0x00, 0x30, 0x05, 0x06, 0x03, 0x2b, 0x65, 0x70, 0x04, 0x22, 0x04, 0x20,
    ];
    der.extend(1..=32u8);
    der
}

fn chain() -> Vec<Vec<u8>> {
    vec![vec![0x30, 0x00]]
}

fn settings() -> RawConfig {
    RawConfig {
        port: Some(443),
        token: Some("secret".to_string()),
        certificate: Some("cert.der".to_string()),
        private_key: Some("key.der".to_string()),
        ..RawConfig::default()
    }
}

#[test]
fn the_final_configuration_holds_the_settings() {
    let raw = RawConfig {
        congestion_controller: CongestionController::Bbr,
        max_idle_time: 20000,
        authentication_timeout: 2500,
        max_udp_packet_size: 1200,
        enable_ipv6: true,
        log_level: LogLevel::Debug,
        ..settings()
    };
    let config = Config::parse(raw, chain(), key()).unwrap();
    assert_eq!(config.port, 443);
    assert_eq!(config.authentication_timeout, Duration::from_millis(2500));
    assert_eq!(config.authentication_timeout.as_nanos(), 2_500_000_000);
    assert_eq!(config.max_udp_packet_size, 1200);
    assert!(config.enable_ipv6);
    assert_eq!(config.log_level, LogLevel::Debug);
    assert_eq!(config.token_digest, token_digest("secret"));
    let transport = format!("{:?}", config.server_config.transport);
    assert!(transport.contains("max_idle_timeout: Some(20000)"), "{transport}");
}

#[test]
fn the_defaults_reach_the_final_configuration() {
    let config = Config::parse(settings(), chain(), key()).unwrap();
    assert_eq!(config.port, 443);
    assert_eq!(config.authentication_timeout, Duration::from_millis(1000));
    assert_eq!(config.max_udp_packet_size, 1536);
    assert!(!config.enable_ipv6);
    assert_eq!(config.log_level, LogLevel::Info);
    let transport = format!("{:?}", config.server_config.transport);
    assert!(transport.contains("max_idle_timeout: Some(15000)"), "{transport}");
}

#[test]
fn an_idle_time_of_zero_is_handed_on() {
    let raw = RawConfig { max_idle_time: 0, ..settings() };
    let config = Config::parse(raw, chain(), key()).unwrap();
    let transport = format!("{:?}", config.server_config.transport);
    assert!(transport.contains("max_idle_timeout: Some(0)"), "{transport}");
}

#[test]
fn each_controller_makes_a_configuration() {
    for controller in [CongestionController::Cubic, CongestionController::NewReno, CongestionController::Bbr] {
        let raw = RawConfig { congestion_controller: controller, ..settings() };
        assert!(Config::parse(raw, chain(), key()).is_ok());
    }
}

#[test]
fn a_key_that_is_none_is_refused_by_the_tls_library() {
    assert!(matches!(Config::parse(settings(), chain(), Vec::new()), Err(ConfigError::Rustls(_))));
    assert!(matches!(Config::parse(settings(), chain(), vec![1, 2, 3]), Err(ConfigError::Rustls(_))));
    assert!(matches!(Config::parse(settings(), Vec::new(), Vec::new()), Err(ConfigError::Rustls(_))));
}

#[test]
fn assembling_hands_the_error_of_the_tls_library_on() {
    let error = rustls::Error::General("no key".to_string());
    match Config::assemble(settings(), Err(error.clone())) {
        Err(ConfigError::Rustls(handed)) => assert_eq!(handed, error),
        _ => panic!("the error was not handed on"),
    }
}

#[test]
fn assembling_keeps_the_security_configuration() {
    let server = quinn::ServerConfig::with_single_cert(
        vec![rustls::Certificate(vec![0x30, 0x00])],
        rustls::PrivateKey(key()),
    )
    .unwrap();
    let crypto = std::sync::Arc::as_ptr(&server.crypto);
    let config = Config::assemble(settings(), Ok(server)).unwrap();
    assert!(std::ptr::addr_eq(std::sync::Arc::as_ptr(&config.server_config.crypto), crypto));
    assert_eq!(config.port, 443);
}

#[test]
fn the_digest_is_the_blake3_hash_of_the_token() {
    assert_eq!(
        token_digest(""),
        [
            0xaf, 0x13, 0x49, 0xb9, 0xf5, 0xf9, 0xa1, 0xa6, 0xa0, 0x40, 0x4d, 0xea, 0x36, 0xdc, 0xc9, 0x49,
            0x9b, 0xcb, 0x25, 0xc9, 0xad, 0xc1, 0x12, 0xb7, 0xcc, 0x9a, 0x93, 0xca, 0xe4, 0x1f, 0x32, 0x62,
        ]
    );
    assert_eq!(token_digest("secret"), *blake3::hash(b"secret").as_bytes());
    assert_eq!(token_digest("pa\u{df}wort"), *blake3::hash("pa\u{df}wort".as_bytes()).as_bytes());
}

#[test]
fn the_same_token_has_the_same_digest() {
    let first = token_digest("a token");
    let second = token_digest(&String::from("a token"));
    assert_eq!(first, second);
    assert_eq!(first.len(), 32);
    assert_ne!(first, token_digest("another token"));
    let config = Config::parse(settings(), chain(), key()).unwrap();
    let again = Config::parse(settings(), chain(), key()).unwrap();
    assert_eq!(config.token_digest, again.token_digest);
}

#[test]
fn a_configuration_is_made_only_of_a_key_of_a_supported_kind() {
    assert!(Config::parse(settings(), chain(), key()).is_ok());
    assert!(Config::parse(settings(), Vec::new(), key()).is_ok());
    assert!(Config::parse(settings(), vec![vec![1], vec![2, 3]], key()).is_ok());
    let mut cut = key();
    cut.pop();
    assert!(matches!(Config::parse(settings(), chain(), cut), Err(ConfigError::Rustls(_))));
    assert!(matches!(Config::parse(settings(), chain(), chain().remove(0)), Err(ConfigError::Rustls(_))));
}
