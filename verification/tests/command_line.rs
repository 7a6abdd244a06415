use server_config::arguments::Arguments;
use server_config::error::{ConfigError, FailureKind};
use server_config::text::join;

fn args(list: &[&str]) -> Vec<String> {
    list.iter().map(|s| s.to_string()).collect()
}

fn read(list: &[&str]) -> Result<Arguments, ConfigError> {
    Arguments::parse(&args(list), "server", "1.2.3")
}

#[test]
fn every_option_is_read() {
    let found = read(&[
        "server",
        "-c",
        "server.json",
        "--port",
        "443",
        "--token",
        "secret",
        "--certificate",
        "cert.der",
        "--private-key",
        "key.der",
        "--congestion-controller",
        "bbr",
        "--max-idle-time",
        "20000",
        "--authentication-timeout",
        "2000",
        "--max-udp-packet-size",
        "1400",
        "--enable-ipv6",
        "--log-level",
        "debug",
    ])
    .unwrap();
    assert_eq!(found.config.as_deref(), Some("server.json"));
    assert_eq!(found.port.as_deref(), Some("443"));
    assert_eq!(found.token.as_deref(), Some("secret"));
    assert_eq!(found.certificate.as_deref(), Some("cert.der"));
    assert_eq!(found.private_key.as_deref(), Some("key.der"));
    assert_eq!(found.congestion_controller.as_deref(), Some("bbr"));
    assert_eq!(found.max_idle_time.as_deref(), Some("20000"));
    assert_eq!(found.authentication_timeout.as_deref(), Some("2000"));
    assert_eq!(found.max_udp_packet_size.as_deref(), Some("1400"));
    assert!(found.enable_ipv6);
    assert_eq!(found.log_level.as_deref(), Some("debug"));
    assert!(!found.version);
    assert!(!found.help);
    assert!(found.free.is_empty());
}

#[test]
fn an_empty_command_line_gives_nothing() {
    let found = read(&["server"]).unwrap();
    assert_eq!(found.config, None);
    assert_eq!(found.port, None);
    assert_eq!(found.token, None);
    assert_eq!(found.certificate, None);
    assert_eq!(found.private_key, None);
    assert_eq!(found.congestion_controller, None);
    assert_eq!(found.max_idle_time, None);
    assert_eq!(found.authentication_timeout, None);
    assert_eq!(found.max_udp_packet_size, None);
    assert!(!found.enable_ipv6);
    assert_eq!(found.log_level, None);
    assert!(found.free.is_empty());
}

#[test]
fn no_arguments_at_all_are_accepted() {
    let found = read(&[]).unwrap();
    assert_eq!(found.port, None);
    assert!(found.free.is_empty());
}

#[test]
fn the_name_of_the_program_is_passed_over() {
    let found = read(&["--help"]).unwrap();
    assert!(!found.help);
    let found = read(&["stray.txt"]).unwrap();
    assert!(found.free.is_empty());
}

#[test]
fn the_long_form_with_an_equals_sign_is_read() {
    let found = read(&["server", "--port=8443", "--config=a.json"]).unwrap();
    assert_eq!(found.port.as_deref(), Some("8443"));
    assert_eq!(found.config.as_deref(), Some("a.json"));
}

#[test]
fn help_gives_the_usage_text() {
    match read(&["server", "--help"]) {
        Err(ConfigError::Help(usage)) => {
            assert!(usage.starts_with("server\n\nOptions:\n"));
            assert!(usage.contains("    -c, --config CONFIG_FILE"));
            assert!(usage.contains("        --port SERVER_PORT"));
            assert!(usage.contains("Set the server listening port"));
            assert!(usage.contains("        --enable-ipv6   Enable IPv6 support"));
            assert!(usage.contains("    -h, --help          Print this help menu"));
            assert!(usage.contains("    -v, --version       Print the version"));
            assert!(usage.ends_with("Print this help menu\n"));
        }
        other => panic!("no usage text: {:?}", other),
    }
}

#[test]
fn the_short_help_flag_gives_the_usage_text() {
    assert!(matches!(read(&["server", "-h"]), Err(ConfigError::Help(_))));
}

#[test]
fn the_usage_text_is_headed_by_the_program() {
    match Arguments::parse(&args(&["x", "-h"]), "another", "0") {
        Err(ConfigError::Help(usage)) => assert!(usage.starts_with("another\n\nOptions:\n")),
        other => panic!("no usage text: {:?}", other),
    }
}

#[test]
fn version_gives_the_version() {
    assert!(matches!(read(&["server", "--version"]), Err(ConfigError::Version("1.2.3"))));
    assert!(matches!(read(&["server", "-v"]), Err(ConfigError::Version("1.2.3"))));
}

#[test]
fn help_comes_before_the_version() {
    assert!(matches!(read(&["server", "--version", "--help"]), Err(ConfigError::Help(_))));
}

#[test]
fn help_and_version_need_no_required_option() {
    assert!(matches!(
        read(&["server", "--help", "--certificate", "/no/such/file"]),
        Err(ConfigError::Help(_))
    ));
    assert!(matches!(
        read(&["server", "--version", "--certificate", "/no/such/file"]),
        Err(ConfigError::Version(_))
    ));
}

#[test]
fn help_comes_before_stray_arguments() {
    assert!(matches!(read(&["server", "--help", "stray.txt"]), Err(ConfigError::Help(_))));
    assert!(matches!(read(&["server", "stray.txt", "-v"]), Err(ConfigError::Version(_))));
}

#[test]
fn a_stray_argument_is_refused_by_name() {
    match read(&["server", "stray.txt"]) {
        Err(ConfigError::UnexpectedArguments(names)) => assert_eq!(names, "stray.txt"),
        other => panic!("not refused: {:?}", other),
    }
}

#[test]
fn stray_arguments_are_listed_in_order() {
    match read(&["server", "one", "--port", "1", "two", "--", "--three"]) {
        Err(ConfigError::UnexpectedArguments(names)) => assert_eq!(names, "one, two, --three"),
        other => panic!("not refused: {:?}", other),
    }
}

#[test]
fn a_single_dash_is_a_stray_argument() {
    match read(&["server", "-"]) {
        Err(ConfigError::UnexpectedArguments(names)) => assert_eq!(names, "-"),
        other => panic!("not refused: {:?}", other),
    }
}

#[test]
fn an_unknown_option_is_a_failure_of_the_parser() {
    match read(&["server", "--bogus"]) {
        Err(ConfigError::ParseArgument(failure)) => {
            assert_eq!(failure.kind, FailureKind::UnrecognizedOption);
            assert_eq!(failure.option, "bogus");
        }
        other => panic!("not refused: {:?}", other),
    }
}

#[test]
fn an_unknown_option_comes_before_help() {
    assert!(matches!(read(&["server", "--help", "--bogus"]), Err(ConfigError::ParseArgument(_))));
}

#[test]
fn an_option_without_its_value_is_a_failure_of_the_parser() {
    match read(&["server", "--port"]) {
        Err(ConfigError::ParseArgument(failure)) => {
            assert_eq!(failure.kind, FailureKind::ArgumentMissing);
            assert_eq!(failure.option, "port");
        }
        other => panic!("not refused: {:?}", other),
    }
}

#[test]
fn an_option_given_twice_is_a_failure_of_the_parser() {
    match read(&["server", "--port", "1", "--port", "2"]) {
        Err(ConfigError::ParseArgument(failure)) => {
            assert_eq!(failure.kind, FailureKind::OptionDuplicated);
            assert_eq!(failure.option, "port");
        }
        other => panic!("not refused: {:?}", other),
    }
}

#[test]
fn a_flag_with_a_value_is_a_failure_of_the_parser() {
    match read(&["server", "--enable-ipv6=yes"]) {
        Err(ConfigError::ParseArgument(failure)) => {
            assert_eq!(failure.kind, FailureKind::UnexpectedArgument);
            assert_eq!(failure.option, "enable-ipv6");
        }
        other => panic!("not refused: {:?}", other),
    }
}

#[test]
fn thirteen_options_are_declared() {
    let options = Arguments::options();
    let matches = options.parse(["--token", "t"]).unwrap();
    for name in [
        "c",
        "config",
        "port",
        "token",
        "certificate",
        "private-key",
        "congestion-controller",
        "max-idle-time",
        "authentication-timeout",
        "max-udp-packet-size",
        "enable-ipv6",
        "log-level",
        "v",
        "version",
        "h",
        "help",
    ] {
        assert!(matches.opt_defined(name));
    }
    assert!(!matches.opt_defined("verbose"));
}

#[test]
fn screening_looks_at_help_then_version_then_stray_arguments() {
    let blank = || read(&["server"]).unwrap();
    let mut found = blank();
    found.help = true;
    found.version = true;
    found.free = args(&["a"]);
    assert!(matches!(found.screen("usage".to_string(), "9"), Err(ConfigError::Help(text)) if text == "usage"));
    let mut found = blank();
    found.version = true;
    found.free = args(&["a"]);
    assert!(matches!(found.screen("usage".to_string(), "9"), Err(ConfigError::Version("9"))));
    let mut found = blank();
    found.free = args(&["a", "b", "c"]);
    assert!(matches!(
        found.screen("usage".to_string(), "9"),
        Err(ConfigError::UnexpectedArguments(names)) if names == "a, b, c"
    ));
    let mut found = blank();
    found.port = Some("1".to_string());
    let passed = found.screen("usage".to_string(), "9").unwrap();
    assert_eq!(passed.port.as_deref(), Some("1"));
}

#[test]
fn joining_puts_the_separator_between_neighbours() {
    assert_eq!(join(&args(&[]), ", "), "");
    assert_eq!(join(&args(&["a"]), ", "), "a");
    assert_eq!(join(&args(&["a", "b"]), ", "), "a, b");
    assert_eq!(join(&args(&["a", "", "c"]), "-"), "a--c");
    assert_eq!(join(&args(&["x", "y"]), ""), "xy");
}
