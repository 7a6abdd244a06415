//! The command line of the server: the options it declares, and what a
//! command line gives for each of them.

use crate::error::{ArgumentFault, ConfigError, Fault};
use crate::options::{
    conventional, declare_flag, declare_option, declared, free_arguments, free_of, first_value,
    names_fit, occurrences, parse_arguments, parse_outcome, usage_text, Declaration, Found,
};
use crate::text::{join, joined, lemma_joined_holds_each, occurs_in, optional_text, texts};
use getopts::{Matches, Options};
use vstd::prelude::*;
use vstd::slice::slice_subrange;

verus! {

pub const CONFIG: &'static str = "config";

pub const PORT: &'static str = "port";

pub const TOKEN: &'static str = "token";

pub const CERTIFICATE: &'static str = "certificate";

pub const PRIVATE_KEY: &'static str = "private-key";

pub const CONGESTION_CONTROLLER: &'static str = "congestion-controller";

pub const MAX_IDLE_TIME: &'static str = "max-idle-time";

pub const AUTHENTICATION_TIMEOUT: &'static str = "authentication-timeout";

pub const MAX_UDP_PACKET_SIZE: &'static str = "max-udp-packet-size";

pub const ENABLE_IPV6: &'static str = "enable-ipv6";

pub const LOG_LEVEL: &'static str = "log-level";

pub const VERSION: &'static str = "version";

pub const HELP: &'static str = "help";

pub const CONFIG_HELP: &'static str =
    "Read configuration from a file. Note that command line arguments will override the configuration file";

pub const PORT_HELP: &'static str = "Set the server listening port";

pub const TOKEN_HELP: &'static str = "Set the token for TUIC authentication";

pub const CERTIFICATE_HELP: &'static str =
    "Set the X.509 certificate. This must be an end-entity certificate";

pub const PRIVATE_KEY_HELP: &'static str = "Set the certificate private key";

pub const CONGESTION_CONTROLLER_HELP: &'static str =
    "Set the congestion control algorithm. Available: \"cubic\", \"new_reno\", \"bbr\". Default: \"cubic\"";

pub const MAX_IDLE_TIME_HELP: &'static str =
    "Set the maximum idle time for connections, in milliseconds. The true idle timeout is the minimum of this and the client's one. Default: 15000";

pub const AUTHENTICATION_TIMEOUT_HELP: &'static str =
    "Set the maximum time allowed between a QUIC connection established and the TUIC authentication packet received, in milliseconds. Default: 1000";

pub const MAX_UDP_PACKET_SIZE_HELP: &'static str =
    "Set the maximum UDP packet size, in bytes. Excess bytes may be discarded. Default: 1536";

pub const ENABLE_IPV6_HELP: &'static str = "Enable IPv6 support";

pub const LOG_LEVEL_HELP: &'static str =
    "Set the log level. Available: \"off\", \"error\", \"warn\", \"info\", \"debug\", \"trace\". Default: \"info\"";

pub const VERSION_HELP: &'static str = "Print the version";

pub const HELP_HELP: &'static str = "Print this help menu";

/// An option of the server that takes a value.
pub open spec fn option(
    short: Seq<char>,
    long: Seq<char>,
    description: Seq<char>,
    hint: Seq<char>,
) -> Declaration {
    Declaration { short, long, description, hint, takes_value: true }
}

/// A flag of the server.
pub open spec fn flag(short: Seq<char>, long: Seq<char>, description: Seq<char>) -> Declaration {
    Declaration { short, long, description, hint: Seq::<char>::empty(), takes_value: false }
}

/// The options that the server declares, in the order of the usage text.
pub open spec fn surface() -> Seq<Declaration> {
    seq![
        option("c"@, CONFIG@, CONFIG_HELP@, "CONFIG_FILE"@),
        option(""@, PORT@, PORT_HELP@, "SERVER_PORT"@),
        option(""@, TOKEN@, TOKEN_HELP@, "TOKEN"@),
        option(""@, CERTIFICATE@, CERTIFICATE_HELP@, "CERTIFICATE"@),
        option(""@, PRIVATE_KEY@, PRIVATE_KEY_HELP@, "PRIVATE_KEY"@),
        option(
            ""@,
            CONGESTION_CONTROLLER@,
            CONGESTION_CONTROLLER_HELP@,
            "CONGESTION_CONTROLLER"@,
        ),
        option(""@, MAX_IDLE_TIME@, MAX_IDLE_TIME_HELP@, "MAX_IDLE_TIME"@),
        option(
            ""@,
            AUTHENTICATION_TIMEOUT@,
            AUTHENTICATION_TIMEOUT_HELP@,
            "AUTHENTICATION_TIMEOUT"@,
        ),
        option(""@, MAX_UDP_PACKET_SIZE@, MAX_UDP_PACKET_SIZE_HELP@, "MAX_UDP_PACKET_SIZE"@),
        flag(""@, ENABLE_IPV6@, ENABLE_IPV6_HELP@),
        option(""@, LOG_LEVEL@, LOG_LEVEL_HELP@, "LOG_LEVEL"@),
        flag("v"@, VERSION@, VERSION_HELP@),
        flag("h"@, HELP@, HELP_HELP@),
    ]
}

/// What a command line gives for each option of the server. A value is the
/// text as it stands on the command line, not yet read as a number or a name.
#[derive(Clone, Debug, PartialEq, Eq)]
pub struct Arguments {
    /// The path of the configuration file.
    pub config: Option<String>,
    pub port: Option<String>,
    pub token: Option<String>,
    pub certificate: Option<String>,
    pub private_key: Option<String>,
    pub congestion_controller: Option<String>,
    pub max_idle_time: Option<String>,
    pub authentication_timeout: Option<String>,
    pub max_udp_packet_size: Option<String>,
    pub enable_ipv6: bool,
    pub log_level: Option<String>,
    pub version: bool,
    pub help: bool,
    /// The arguments that belong to no option.
    pub free: Vec<String>,
}

/// `Arguments` as contracts speak of them.
pub struct ArgumentsView {
    pub config: Option<Seq<char>>,
    pub port: Option<Seq<char>>,
    pub token: Option<Seq<char>>,
    pub certificate: Option<Seq<char>>,
    pub private_key: Option<Seq<char>>,
    pub congestion_controller: Option<Seq<char>>,
    pub max_idle_time: Option<Seq<char>>,
    pub authentication_timeout: Option<Seq<char>>,
    pub max_udp_packet_size: Option<Seq<char>>,
    pub enable_ipv6: bool,
    pub log_level: Option<Seq<char>>,
    pub version: bool,
    pub help: bool,
    pub free: Seq<Seq<char>>,
}

impl View for Arguments {
    type V = ArgumentsView;

    open spec fn view(&self) -> ArgumentsView {
        ArgumentsView {
            config: optional_text(self.config),
            port: optional_text(self.port),
            token: optional_text(self.token),
            certificate: optional_text(self.certificate),
            private_key: optional_text(self.private_key),
            congestion_controller: optional_text(self.congestion_controller),
            max_idle_time: optional_text(self.max_idle_time),
            authentication_timeout: optional_text(self.authentication_timeout),
            max_udp_packet_size: optional_text(self.max_udp_packet_size),
            enable_ipv6: self.enable_ipv6,
            log_level: optional_text(self.log_level),
            version: self.version,
            help: self.help,
            free: texts(self.free@),
        }
    }
}

/// The value that the option `name` stands with in `found`, if it stands with one.
pub open spec fn value_of(found: Found, name: Seq<char>) -> Option<Seq<char>> {
    first_value(found.occurrences[name])
}

/// Whether the option `name` stands in `found`.
pub open spec fn stands(found: Found, name: Seq<char>) -> bool {
    found.occurrences[name].len() > 0
}

/// What `found` gives for each option of the server.
pub open spec fn gathered(found: Found) -> ArgumentsView {
    ArgumentsView {
        config: value_of(found, CONFIG@),
        port: value_of(found, PORT@),
        token: value_of(found, TOKEN@),
        certificate: value_of(found, CERTIFICATE@),
        private_key: value_of(found, PRIVATE_KEY@),
        congestion_controller: value_of(found, CONGESTION_CONTROLLER@),
        max_idle_time: value_of(found, MAX_IDLE_TIME@),
        authentication_timeout: value_of(found, AUTHENTICATION_TIMEOUT@),
        max_udp_packet_size: value_of(found, MAX_UDP_PACKET_SIZE@),
        enable_ipv6: stands(found, ENABLE_IPV6@),
        log_level: value_of(found, LOG_LEVEL@),
        version: stands(found, VERSION@),
        help: stands(found, HELP@),
        free: found.free,
    }
}

/// What becomes of a command line once it is known what it gives: the usage
/// text where help is asked for, else the version where that is asked for,
/// else a refusal of arguments that belong to no option, else the arguments.
pub open spec fn screened(
    arguments: ArgumentsView,
    usage: Seq<char>,
    version: Seq<char>,
) -> Result<ArgumentsView, Fault> {
    if arguments.help {
        Err(Fault::Help(usage))
    } else if arguments.version {
        Err(Fault::Version(version))
    } else if arguments.free.len() > 0 {
        Err(Fault::UnexpectedArguments(joined(arguments.free, ", "@)))
    } else {
        Ok(arguments)
    }
}

/// The arguments of a process without the first, the name of the program.
pub open spec fn after_program(args: Seq<Seq<char>>) -> Seq<Seq<char>> {
    if args.len() > 0 {
        args.skip(1)
    } else {
        args
    }
}

/// What the command line `args` of the program `program` comes to.
pub open spec fn command_line(
    args: Seq<Seq<char>>,
    program: Seq<char>,
    version: Seq<char>,
) -> Result<ArgumentsView, Fault> {
    match parse_outcome(surface(), after_program(args)) {
        Err(fault) => Err(Fault::ParseArgument(fault)),
        Ok(found) => screened(gathered(found), usage_text(surface(), program), version),
    }
}

/// The names of the options of the server are names that the parser accepts.
proof fn lemma_names_fit()
    ensures
        surface().len() == 13,
        forall|i: int|
            0 <= i < surface().len() ==> names_fit(
                #[trigger] surface()[i].short,
                surface()[i].long,
            ),
        forall|i: int| 0 <= i < surface().len() ==> (#[trigger] surface()[i]).long.len() > 1,
{
    reveal_strlit("");
    reveal_strlit("c");
    reveal_strlit("v");
    reveal_strlit("h");
    reveal_strlit("config");
    reveal_strlit("port");
    reveal_strlit("token");
    reveal_strlit("certificate");
    reveal_strlit("private-key");
    reveal_strlit("congestion-controller");
    reveal_strlit("max-idle-time");
    reveal_strlit("authentication-timeout");
    reveal_strlit("max-udp-packet-size");
    reveal_strlit("enable-ipv6");
    reveal_strlit("log-level");
    reveal_strlit("version");
    reveal_strlit("help");
}

impl Arguments {
    /// The options of the server, declared to the parser.
    pub fn options() -> (options: Options)
        ensures
            declared(options) == surface(),
            conventional(options),
    {
        let mut options = Options::new();
        proof {
            lemma_names_fit();
            assert(names_fit(surface()[0].short, surface()[0].long));
            assert(names_fit(surface()[1].short, surface()[1].long));
            assert(names_fit(surface()[2].short, surface()[2].long));
            assert(names_fit(surface()[3].short, surface()[3].long));
            assert(names_fit(surface()[4].short, surface()[4].long));
            assert(names_fit(surface()[5].short, surface()[5].long));
            assert(names_fit(surface()[6].short, surface()[6].long));
            assert(names_fit(surface()[7].short, surface()[7].long));
            assert(names_fit(surface()[8].short, surface()[8].long));
            assert(names_fit(surface()[9].short, surface()[9].long));
            assert(names_fit(surface()[10].short, surface()[10].long));
            assert(names_fit(surface()[11].short, surface()[11].long));
            assert(names_fit(surface()[12].short, surface()[12].long));
        }
        declare_option(&mut options, "c", CONFIG, CONFIG_HELP, "CONFIG_FILE");
        declare_option(&mut options, "", PORT, PORT_HELP, "SERVER_PORT");
        declare_option(&mut options, "", TOKEN, TOKEN_HELP, "TOKEN");
        declare_option(&mut options, "", CERTIFICATE, CERTIFICATE_HELP, "CERTIFICATE");
        declare_option(&mut options, "", PRIVATE_KEY, PRIVATE_KEY_HELP, "PRIVATE_KEY");
        declare_option(
            &mut options,
            "",
            CONGESTION_CONTROLLER,
            CONGESTION_CONTROLLER_HELP,
            "CONGESTION_CONTROLLER",
        );
        declare_option(&mut options, "", MAX_IDLE_TIME, MAX_IDLE_TIME_HELP, "MAX_IDLE_TIME");
        declare_option(
            &mut options,
            "",
            AUTHENTICATION_TIMEOUT,
            AUTHENTICATION_TIMEOUT_HELP,
            "AUTHENTICATION_TIMEOUT",
        );
        declare_option(
            &mut options,
            "",
            MAX_UDP_PACKET_SIZE,
            MAX_UDP_PACKET_SIZE_HELP,
            "MAX_UDP_PACKET_SIZE",
        );
        declare_flag(&mut options, "", ENABLE_IPV6, ENABLE_IPV6_HELP);
        declare_option(&mut options, "", LOG_LEVEL, LOG_LEVEL_HELP, "LOG_LEVEL");
        declare_flag(&mut options, "v", VERSION, VERSION_HELP);
        declare_flag(&mut options, "h", HELP, HELP_HELP);
        proof {
            assert(declared(options) =~= surface());
        }
        options
    }

    /// Reads from the matches of a command line what it gives for each
    /// option of the server.
    fn gather(matches: Matches) -> (arguments: Arguments)
        requires
            forall|i: int|
                0 <= i < surface().len() ==> occurrences(matches).dom().contains(
                    #[trigger] surface()[i].long,
                ),
        ensures
            arguments@ == gathered(
                Found { occurrences: occurrences(matches), free: free_arguments(matches) },
            ),
    {
        proof {
            lemma_names_fit();
        }
        let config = matches.opt_str(CONFIG);
        let port = matches.opt_str(PORT);
        let token = matches.opt_str(TOKEN);
        let certificate = matches.opt_str(CERTIFICATE);
        let private_key = matches.opt_str(PRIVATE_KEY);
        let congestion_controller = matches.opt_str(CONGESTION_CONTROLLER);
        let max_idle_time = matches.opt_str(MAX_IDLE_TIME);
        let authentication_timeout = matches.opt_str(AUTHENTICATION_TIMEOUT);
        let max_udp_packet_size = matches.opt_str(MAX_UDP_PACKET_SIZE);
        let enable_ipv6 = matches.opt_present(ENABLE_IPV6);
        let log_level = matches.opt_str(LOG_LEVEL);
        let version = matches.opt_present(VERSION);
        let help = matches.opt_present(HELP);
        let free = free_of(matches);
        Arguments {
            config,
            port,
            token,
            certificate,
            private_key,
            congestion_controller,
            max_idle_time,
            authentication_timeout,
            max_udp_packet_size,
            enable_ipv6,
            log_level,
            version,
            help,
            free,
        }
    }

    /// Answers a request for help or for the version, refuses arguments that
    /// belong to no option, and hands the arguments on otherwise. Help comes
    /// before the version, and both before the refusal: nothing else that the
    /// command line holds or lacks is looked at.
    pub fn screen(self, usage: String, version: &'static str) -> (outcome: Result<
        Arguments,
        ConfigError,
    >)
        ensures
            match outcome {
                Ok(arguments) => screened(self@, usage@, version@) == Ok::<ArgumentsView, Fault>(
                    arguments@,
                ),
                Err(error) => screened(self@, usage@, version@) == Err::<ArgumentsView, Fault>(
                    error@,
                ),
            },
    {
        if self.help {
            Err(ConfigError::Help(usage))
        } else if self.version {
            Err(ConfigError::Version(version))
        } else if self.free.len() > 0 {
            Err(ConfigError::UnexpectedArguments(join(&self.free, ", ")))
        } else {
            Ok(self)
        }
    }

    /// Reads the command line of a process. `args` are its arguments, the
    /// first of which, the name of the program, is passed over; `program`
    /// heads the usage text.
    pub fn parse(args: &Vec<String>, program: &str, version: &'static str) -> (outcome: Result<
        Arguments,
        ConfigError,
    >)
        ensures
            match outcome {
                Ok(arguments) => command_line(texts(args@), program@, version@) == Ok::<
                    ArgumentsView,
                    Fault,
                >(arguments@),
                Err(error) => command_line(texts(args@), program@, version@) == Err::<
                    ArgumentsView,
                    Fault,
                >(error@),
            },
    {
        let options = Arguments::options();
        let rest = if args.len() > 0 {
            slice_subrange(args.as_slice(), 1, args.len())
        } else {
            args.as_slice()
        };
        proof {
            assert(texts(rest@) =~= after_program(texts(args@)));
        }
        match parse_arguments(&options, rest) {
            Err(failure) => Err(ConfigError::ParseArgument(failure)),
            Ok(matches) => {
                proof {
                    lemma_names_fit();
                    assert forall|i: int| 0 <= i < surface().len() implies occurrences(
                        matches,
                    ).dom().contains(#[trigger] surface()[i].long) by {
                        assert(surface()[i].long.len() > 1);
                        assert(declared(options)[i] == surface()[i]);
                    }
                }
                let usage = options.usage(program);
                Arguments::gather(matches).screen(usage, version)
            },
        }
    }
}

/// A request for help is answered with the usage text, and one for the
/// version, where no help is asked for, with the version: whatever else the
/// command line holds, and whichever setting it lacks.
pub proof fn lemma_help_and_version_first(
    arguments: ArgumentsView,
    usage: Seq<char>,
    version: Seq<char>,
)
    ensures
        arguments.help ==> screened(arguments, usage, version) == Err::<ArgumentsView, Fault>(
            Fault::Help(usage),
        ),
        !arguments.help && arguments.version ==> screened(arguments, usage, version) == Err::<
            ArgumentsView,
            Fault,
        >(Fault::Version(version)),
{
}

/// Where the parser finds the help flag on a command line, the command line
/// comes to the usage text; where it finds the version flag and no help
/// flag, to the version.
pub proof fn lemma_flags_short_circuit(
    args: Seq<Seq<char>>,
    program: Seq<char>,
    version: Seq<char>,
    found: Found,
)
    requires
        parse_outcome(surface(), after_program(args)) == Ok::<Found, ArgumentFault>(found),
    ensures
        stands(found, HELP@) ==> command_line(args, program, version) == Err::<
            ArgumentsView,
            Fault,
        >(Fault::Help(usage_text(surface(), program))),
        !stands(found, HELP@) && stands(found, VERSION@) ==> command_line(args, program, version)
            == Err::<ArgumentsView, Fault>(Fault::Version(version)),
{
}

/// Arguments that belong to no option are refused, where neither help nor
/// the version is asked for, and the refusal holds each of them.
pub proof fn lemma_stray_arguments_refused(
    arguments: ArgumentsView,
    usage: Seq<char>,
    version: Seq<char>,
)
    requires
        !arguments.help,
        !arguments.version,
        arguments.free.len() > 0,
    ensures
        screened(arguments, usage, version) == Err::<ArgumentsView, Fault>(
            Fault::UnexpectedArguments(joined(arguments.free, ", "@)),
        ),
        forall|i: int|
            0 <= i < arguments.free.len() ==> occurs_in(
                #[trigger] arguments.free[i],
                joined(arguments.free, ", "@),
            ),
{
    assert forall|i: int| 0 <= i < arguments.free.len() implies occurs_in(
        #[trigger] arguments.free[i],
        joined(arguments.free, ", "@),
    ) by {
        lemma_joined_holds_each(arguments.free, ", "@, i);
    }
}

/// What passes the screening is what was screened: it asks for neither help
/// nor the version and holds no argument without an option.
pub proof fn lemma_screened_passes_unchanged(
    arguments: ArgumentsView,
    usage: Seq<char>,
    version: Seq<char>,
)
    ensures
        screened(arguments, usage, version) is Ok <==> !arguments.help && !arguments.version
            && arguments.free.len() == 0,
        screened(arguments, usage, version) is Ok ==> screened(arguments, usage, version)
            == Ok::<ArgumentsView, Fault>(arguments),
{
}

} // verus!
