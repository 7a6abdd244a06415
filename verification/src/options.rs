//! The argument parser of the `getopts` crate, as far as the command line of
//! the server needs it: options that take a value and flags, each allowed at
//! most once.

use crate::error::{ArgumentFailure, ArgumentFault, FailureKind};
use crate::text::{optional_text, texts};
use getopts::{Fail, Matches, Options};
use vstd::prelude::*;

verus! {

/// `getopts::Options`: the options that a program declares. What one holds
/// is known through `declared` and `conventional` alone.
#[verifier::external_type_specification]
#[verifier::external_body]
pub struct ExOptions(getopts::Options);

/// `getopts::Matches`: what the parser found on a command line. What one
/// holds is known through `occurrences` and `free_arguments` alone.
#[verifier::external_type_specification]
#[verifier::external_body]
pub struct ExMatches(getopts::Matches);

/// One option as it is declared to the parser.
pub struct Declaration {
    /// The name after a single dash: one character, or empty for none.
    pub short: Seq<char>,
    /// The name after two dashes, or empty for none.
    pub long: Seq<char>,
    /// What the usage text says of the option.
    pub description: Seq<char>,
    /// What the usage text puts in the place of the value.
    pub hint: Seq<char>,
    /// Whether a value follows the option; a flag has none.
    pub takes_value: bool,
}

/// What the parser found on a command line.
pub struct Found {
    /// For each name of a declared option, once for each time the option
    /// stands on the command line, the value it stands with, if any.
    pub occurrences: Map<Seq<char>, Seq<Option<Seq<char>>>>,
    /// The arguments that belong to no option, in order.
    pub free: Seq<Seq<char>>,
}

/// The options that a set of options holds, in the order of their declaration.
pub uninterp spec fn declared(options: Options) -> Seq<Declaration>;

/// Whether a set of options is as `Options::new` made it but for options
/// added by `optopt` and `optflag`: free arguments may stand anywhere, a long
/// name takes two dashes, and every option may stand once at most.
pub uninterp spec fn conventional(options: Options) -> bool;

/// What the matches of a command line hold for each name of a declared
/// option: the field `occurrences` of `Found`.
pub uninterp spec fn occurrences(matches: Matches) -> Map<Seq<char>, Seq<Option<Seq<char>>>>;

/// The free arguments that the matches of a command line hold.
pub uninterp spec fn free_arguments(matches: Matches) -> Seq<Seq<char>>;

/// What `Options::parse` makes of the arguments `args` under the options `declared`.
pub uninterp spec fn parse_outcome(declared: Seq<Declaration>, args: Seq<Seq<char>>) -> Result<
    Found,
    ArgumentFault,
>;

/// The text of `Options::usage` for the options `declared` under the heading `brief`.
pub uninterp spec fn usage_text(declared: Seq<Declaration>, brief: Seq<char>) -> Seq<char>;

/// Names that the parser accepts for one option: the short one is empty or a
/// single ASCII character, the long one is empty or longer than one
/// character, and not both are empty.
pub open spec fn names_fit(short: Seq<char>, long: Seq<char>) -> bool {
    &&& short.len() == 0 || (short.len() == 1 && short[0] as u32 <= 127)
    &&& long.len() != 1
    &&& short.len() > 0 || long.len() > 0
}

/// Whether `names` holds each name that `declaration` gives its option.
pub open spec fn holds_names(names: Set<Seq<char>>, declaration: Declaration) -> bool {
    &&& declaration.short.len() > 0 ==> names.contains(declaration.short)
    &&& declaration.long.len() > 0 ==> names.contains(declaration.long)
}

/// The value that an option first stands with, if it stands with one.
pub open spec fn first_value(occurrences: Seq<Option<Seq<char>>>) -> Option<Seq<char>> {
    if occurrences.len() > 0 {
        occurrences[0]
    } else {
        None
    }
}

/// `Options::new`: a set without options, with the conventions of the crate.
pub assume_specification[ Options::new ]() -> (options: Options)
    ensures
        declared(options) == Seq::<Declaration>::empty(),
        conventional(options),
;

/// `Options::optopt`: adds an option that takes a value and may stand once.
/// The crate panics on a short name of more than one byte and on a long name
/// of one byte, and later on an option without any name.
#[verifier::external_body]
pub(crate) fn declare_option(
    options: &mut Options,
    short: &str,
    long: &str,
    description: &str,
    hint: &str,
)
    requires
        names_fit(short@, long@),
    ensures
        declared(*final(options)) == declared(*old(options)).push(
            Declaration {
                short: short@,
                long: long@,
                description: description@,
                hint: hint@,
                takes_value: true,
            },
        ),
        conventional(*final(options)) == conventional(*old(options)),
{
    options.optopt(short, long, description, hint);
}

/// `Options::optflag`: adds a flag, which takes no value and may stand once.
/// The names are held to the same rules as those of `optopt`.
#[verifier::external_body]
pub(crate) fn declare_flag(options: &mut Options, short: &str, long: &str, description: &str)
    requires
        names_fit(short@, long@),
    ensures
        declared(*final(options)) == declared(*old(options)).push(
            Declaration {
                short: short@,
                long: long@,
                description: description@,
                hint: Seq::<char>::empty(),
                takes_value: false,
            },
        ),
        conventional(*final(options)) == conventional(*old(options)),
{
    options.optflag(short, long, description);
}

/// `Options::parse`: the matches or the failure that the crate makes of
/// `args` under the options declared. Matches answer for every name that was
/// declared.
#[verifier::external_body]
pub(crate) fn parse_arguments(options: &Options, args: &[String]) -> (outcome: Result<
    Matches,
    ArgumentFailure,
>)
    requires
        conventional(*options),
    ensures
        match outcome {
            Ok(matches) => {
                &&& parse_outcome(declared(*options), texts(args@)) == Ok::<Found, ArgumentFault>(
                    Found { occurrences: occurrences(matches), free: free_arguments(matches) },
                )
                &&& forall|i: int|
                    0 <= i < declared(*options).len() ==> holds_names(
                        occurrences(matches).dom(),
                        #[trigger] declared(*options)[i],
                    )
            },
            Err(failure) => parse_outcome(declared(*options), texts(args@)) == Err::<
                Found,
                ArgumentFault,
            >(failure@),
        },
{
    match options.parse(args) {
        Ok(matches) => Ok(matches),
        Err(Fail::ArgumentMissing(option)) => Err(ArgumentFailure { kind: FailureKind::ArgumentMissing, option }),
        Err(Fail::UnrecognizedOption(option)) => Err(ArgumentFailure { kind: FailureKind::UnrecognizedOption, option }),
        Err(Fail::OptionMissing(option)) => Err(ArgumentFailure { kind: FailureKind::OptionMissing, option }),
        Err(Fail::OptionDuplicated(option)) => Err(ArgumentFailure { kind: FailureKind::OptionDuplicated, option }),
        Err(Fail::UnexpectedArgument(option)) => Err(ArgumentFailure { kind: FailureKind::UnexpectedArgument, option }),
    }
}

/// `Options::usage`: the usage text for the options declared, under `brief`.
pub assume_specification[ Options::usage ](options: &Options, brief: &str) -> (usage: String)
    requires
        conventional(*options),
    ensures
        usage@ == usage_text(declared(*options), brief@),
;

/// `Matches::opt_present`: whether the option stands on the command line.
/// The crate panics on a name that was not declared.
pub assume_specification[ Matches::opt_present ](matches: &Matches, name: &str) -> (present: bool)
    requires
        occurrences(*matches).dom().contains(name@),
    ensures
        present == (occurrences(*matches)[name@].len() > 0),
;

/// `Matches::opt_str`: the value that the option first stands with, if it
/// stands with one. The crate panics on a name that was not declared.
pub assume_specification[ Matches::opt_str ](matches: &Matches, name: &str) -> (value: Option<
    String,
>)
    requires
        occurrences(*matches).dom().contains(name@),
    ensures
        optional_text(value) == first_value(occurrences(*matches)[name@]),
;

/// The field `free` of `Matches`: the arguments that belong to no option.
#[verifier::external_body]
pub(crate) fn free_of(matches: Matches) -> (free: Vec<String>)
    ensures
        texts(free@) == free_arguments(matches),
{
    matches.free
}

} // verus!
