//! The boundary with the `getopts` crate, which parses the command line.
//!
//! Nothing in this file is proved. Each function states what the crate's
//! source shows of the call it makes, over the models declared here.

use vstd::prelude::*;
use vstd::string::*;
use getopts::Matches;
use getopts::Options as Parser;
use crate::misfire::{Fail, FailView};

verus! {

/// `getopts::Options`: the options that a parser has been told of.
#[verifier::external_type_specification]
#[verifier::external_body]
pub struct ExParser(Parser);

/// `getopts::Matches`: what a command line gave for each declared option,
/// and its free arguments.
#[verifier::external_type_specification]
#[verifier::external_body]
pub struct ExMatches(Matches);

/// One declared option.
pub struct OptDecl {
    /// The one-letter name, or nothing.
    pub short: Seq<char>,
    /// The long name.
    pub long: Seq<char>,
    /// The description shown in the usage text.
    pub desc: Seq<char>,
    /// The placeholder that the usage text shows for the value.
    pub hint: Seq<char>,
    /// Whether the option takes a value.
    pub takes_value: bool,
}

/// The state of a parser: its options in the order of their declaration
/// and its two settings.
pub struct ParserView {
    pub options: Seq<OptDecl>,
    /// Whether free arguments and options may be mixed freely.
    pub floating_frees: bool,
    /// Whether long options may be written with a single dash.
    pub long_only: bool,
}

/// What a successful parse holds.
pub struct Parsed {
    /// For each name that can be asked for, one entry per occurrence on the
    /// command line: the value it came with, or `None` for a bare flag.
    pub matched: Map<Seq<char>, Seq<Option<Seq<char>>>>,
    /// The arguments that belong to no option.
    pub free: Seq<Seq<char>>,
}

impl Parsed {
    /// Whether an option occurred.
    pub open spec fn present(self, name: Seq<char>) -> bool {
        self.matched[name].len() > 0
    }

    /// The value that the first occurrence of an option came with.
    pub open spec fn value(self, name: Seq<char>) -> Option<Seq<char>> {
        if self.matched[name].len() > 0 {
            self.matched[name][0]
        } else {
            None
        }
    }
}

/// The characters of each text of a sequence.
pub open spec fn texts(strings: Seq<String>) -> Seq<Seq<char>> {
    strings.map_values(|s: String| s@)
}

/// Whether every declared option has a long name of two characters or
/// more, which is what lets the parser file it under that name.
pub open spec fn well_named(parser: ParserView) -> bool {
    forall|i: int| 0 <= i < parser.options.len() ==> (#[trigger] parser.options[i]).long.len() >= 2
}

/// The state of a `getopts::Options`.
pub uninterp spec fn parser_view(parser: Parser) -> ParserView;

/// The occurrences that a `getopts::Matches` holds, by option name.
pub uninterp spec fn matched(matches: Matches) -> Map<Seq<char>, Seq<Option<Seq<char>>>>;

/// The free arguments that a `getopts::Matches` holds.
pub uninterp spec fn free_args(matches: Matches) -> Seq<Seq<char>>;

/// What `getopts::Options::parse` makes of a command line.
pub uninterp spec fn parse_outcome(parser: ParserView, args: Seq<Seq<char>>) -> Result<
    Parsed,
    FailView,
>;

/// The text that `getopts::Options::usage` writes under a heading.
pub uninterp spec fn usage_text(parser: ParserView, brief: Seq<char>) -> Seq<char>;

/// `getopts::Options::new`: a parser with no options, in which options
/// and free arguments may be mixed and long options take two dashes.
#[verifier::external_body]
pub(crate) fn new_parser() -> (parser: Parser)
    ensures
        parser_view(parser) == (ParserView {
            options: Seq::<OptDecl>::empty(),
            floating_frees: true,
            long_only: false,
        }),
{
    Parser::new()
}

/// `getopts::Options::optflag`: declares, after the others, an option that
/// takes no value and may be given at most once. The crate panics on a
/// short name longer than one byte and on a long name of exactly one byte.
#[verifier::external_body]
pub(crate) fn add_flag(parser: &mut Parser, short: &str, long: &str, desc: &str)
    requires
        short@.len() <= 1,
        is_ascii(short),
        long@.len() >= 2,
    ensures
        parser_view(*final(parser)) == (ParserView {
            options: parser_view(*old(parser)).options.push(
                OptDecl {
                    short: short@,
                    long: long@,
                    desc: desc@,
                    hint: Seq::<char>::empty(),
                    takes_value: false,
                },
            ),
            ..parser_view(*old(parser))
        }),
{
    parser.optflag(short, long, desc);
}

/// `getopts::Options::optopt`: declares, after the others, an option that
/// takes a value and may be given at most once. It panics as `optflag`
/// does.
#[verifier::external_body]
pub(crate) fn add_value(
    parser: &mut Parser,
    short: &str,
    long: &str,
    desc: &str,
    hint: &str,
)
    requires
        short@.len() <= 1,
        is_ascii(short),
        long@.len() >= 2,
    ensures
        parser_view(*final(parser)) == (ParserView {
            options: parser_view(*old(parser)).options.push(
                OptDecl { short: short@, long: long@, desc: desc@, hint: hint@, takes_value: true },
            ),
            ..parser_view(*old(parser))
        }),
{
    parser.optopt(short, long, desc, hint);
}

/// `getopts::Options::parse`. The outcome depends on the parser's state
/// and the arguments alone. After a success every declared long name can
/// be asked for. The crate panics on an option without any name, which
/// `well_named` rules out. A failure is handed on variant by variant.
#[verifier::external_body]
pub(crate) fn parse(parser: &Parser, args: &[String]) -> (r: Result<
    Matches,
    Fail,
>)
    requires
        well_named(parser_view(*parser)),
    ensures
        match r {
            Ok(m) => {
                &&& parse_outcome(parser_view(*parser), texts(args@)) == Ok::<Parsed, FailView>(
                    Parsed { matched: matched(m), free: free_args(m) },
                )
                &&& forall|i: int|
                    0 <= i < parser_view(*parser).options.len() ==> matched(m).dom().contains(
                        (#[trigger] parser_view(*parser).options[i]).long,
                    )
            },
            Err(f) => parse_outcome(parser_view(*parser), texts(args@)) == Err::<Parsed, FailView>(
                f@,
            ),
        },
{
    match parser.parse(args) {
        Ok(m) => Ok(m),
        Err(getopts::Fail::ArgumentMissing(name)) => Err(Fail::ArgumentMissing(name)),
        Err(getopts::Fail::UnrecognizedOption(name)) => Err(Fail::UnrecognizedOption(name)),
        Err(getopts::Fail::OptionMissing(name)) => Err(Fail::OptionMissing(name)),
        Err(getopts::Fail::OptionDuplicated(name)) => Err(Fail::OptionDuplicated(name)),
        Err(getopts::Fail::UnexpectedArgument(name)) => Err(Fail::UnexpectedArgument(name)),
    }
}

/// `getopts::Matches::opt_present`: whether the option occurred. The crate
/// panics on a name that cannot be asked for.
#[verifier::external_body]
pub(crate) fn opt_present(matches: &Matches, name: &str) -> (present: bool)
    requires
        matched(*matches).dom().contains(name@),
    ensures
        present == (matched(*matches)[name@].len() > 0),
{
    matches.opt_present(name)
}

/// `getopts::Matches::opt_str`: the value of the option's first
/// occurrence, if it occurred and came with one. The crate panics on a name
/// that cannot be asked for.
#[verifier::external_body]
pub(crate) fn opt_str(matches: &Matches, name: &str) -> (value: Option<String>)
    requires
        matched(*matches).dom().contains(name@),
    ensures
        match value {
            Some(text) => matched(*matches)[name@].len() > 0 && matched(*matches)[name@][0] == Some(
                text@,
            ),
            None => matched(*matches)[name@].len() == 0 || matched(*matches)[name@][0] is None,
        },
{
    matches.opt_str(name)
}

/// The field `free` of a `getopts::Matches`: a copy of the free arguments.
#[verifier::external_body]
pub(crate) fn free(matches: &Matches) -> (args: Vec<String>)
    ensures
        texts(args@) == free_args(*matches),
{
    matches.free.clone()
}

/// `getopts::Options::usage`: the heading, a blank line, and one entry for
/// each option. The text depends on the parser's state and the heading
/// alone, and is never empty.
#[verifier::external_body]
pub(crate) fn usage(parser: &Parser, brief: &str) -> (text: String)
    requires
        well_named(parser_view(*parser)),
    ensures
        text@ == usage_text(parser_view(*parser), brief@),
        text@.len() > 0,
{
    parser.usage(brief)
}

/// How `getopts` words a failure.
pub open spec fn fail_message(fail: FailView) -> Seq<char> {
    match fail {
        FailView::ArgumentMissing(name) => "Argument to option '"@ + name + "' missing"@,
        FailView::UnrecognizedOption(name) => "Unrecognized option: '"@ + name + "'"@,
        FailView::OptionMissing(name) => "Required option '"@ + name + "' missing"@,
        FailView::OptionDuplicated(name) => "Option '"@ + name + "' given more than once"@,
        FailView::UnexpectedArgument(name) => "Option '"@ + name + "' does not take an argument"@,
    }
}

/// The `Display` of `getopts::Fail`: a fixed sentence for each variant,
/// with the option's name in quotes.
#[verifier::external_body]
pub(crate) fn fail_text(fail: &Fail) -> (text: String)
    ensures
        text@ == fail_message(fail@),
{
    let outside = match fail {
        Fail::ArgumentMissing(name) => getopts::Fail::ArgumentMissing(name.clone()),
        Fail::UnrecognizedOption(name) => getopts::Fail::UnrecognizedOption(name.clone()),
        Fail::OptionMissing(name) => getopts::Fail::OptionMissing(name.clone()),
        Fail::OptionDuplicated(name) => getopts::Fail::OptionDuplicated(name.clone()),
        Fail::UnexpectedArgument(name) => getopts::Fail::UnexpectedArgument(name.clone()),
    };
    outside.to_string()
}

} // verus!
