//! The ways in which option resolution can end without a configuration.

use std::num::ParseIntError;
use vstd::prelude::*;
use vstd::string::*;
use crate::parser::{fail_message, fail_text};

verus! {

/// The error of parsing an integer from text, as the standard library
/// reports it. Nothing inside it is visible to the verifier.
#[verifier::external_type_specification]
#[verifier::external_body]
pub struct ExParseIntError(ParseIntError);

/// The version that a request for the version is answered with.
pub const VERSION: &'static str = "0.3.0";

/// How the standard library words an error of parsing an integer.
pub uninterp spec fn parse_error_text(error: ParseIntError) -> Seq<char>;

/// The `Display` of `std::num::ParseIntError`. The text depends on the
/// error alone; the standard library does not say what it reads.
#[verifier::external_body]
fn describe_parse_error(error: &ParseIntError) -> (text: String)
    ensures
        text@ == parse_error_text(*error),
{
    error.to_string()
}

/// Why the argument grammar rejected a command line. Each variant carries
/// the name of the option concerned.
#[derive(Clone, PartialEq, Eq, Debug)]
pub enum Fail {
    /// The option requires an argument but none was passed.
    ArgumentMissing(String),
    /// The option is not among the declared ones.
    UnrecognizedOption(String),
    /// A required option is absent.
    OptionMissing(String),
    /// A single-occurrence option was given more than once.
    OptionDuplicated(String),
    /// An argument was passed to an option that takes none.
    UnexpectedArgument(String),
}

/// The mathematical value of a `Fail`.
pub enum FailView {
    ArgumentMissing(Seq<char>),
    UnrecognizedOption(Seq<char>),
    OptionMissing(Seq<char>),
    OptionDuplicated(Seq<char>),
    UnexpectedArgument(Seq<char>),
}

impl View for Fail {
    type V = FailView;

    open spec fn view(&self) -> FailView {
        match *self {
            Fail::ArgumentMissing(s) => FailView::ArgumentMissing(s@),
            Fail::UnrecognizedOption(s) => FailView::UnrecognizedOption(s@),
            Fail::OptionMissing(s) => FailView::OptionMissing(s@),
            Fail::OptionDuplicated(s) => FailView::OptionDuplicated(s@),
            Fail::UnexpectedArgument(s) => FailView::UnexpectedArgument(s@),
        }
    }
}

/// One of these things could happen instead of listing files.
#[derive(PartialEq, Debug)]
pub enum Misfire {
    /// The argument grammar didn't like these arguments.
    InvalidOptions(Fail),
    /// The user asked for help. This isn't strictly an error, which is why
    /// this enum isn't named Error!
    Help(String),
    /// The user wanted the version number.
    Version,
    /// Two options were given that conflict with one another.
    Conflict(&'static str, &'static str),
    /// An option was given that does nothing when another one either is
    /// (`true`) or isn't (`false`) present.
    Useless(&'static str, bool, &'static str),
    /// An option was given that does nothing when neither of two other
    /// options is present.
    Useless2(&'static str, &'static str, &'static str),
    /// A numeric option was given that failed to be parsed as a number.
    FailedParse(ParseIntError),
}

/// The mathematical value of a `Misfire`: option names and texts as
/// sequences of characters.
pub enum MisfireView {
    InvalidOptions(FailView),
    Help(Seq<char>),
    Version,
    Conflict(Seq<char>, Seq<char>),
    Useless(Seq<char>, bool, Seq<char>),
    Useless2(Seq<char>, Seq<char>, Seq<char>),
    FailedParse(ParseIntError),
}

impl View for Misfire {
    type V = MisfireView;

    open spec fn view(&self) -> MisfireView {
        match *self {
            Misfire::InvalidOptions(f) => MisfireView::InvalidOptions(f@),
            Misfire::Help(text) => MisfireView::Help(text@),
            Misfire::Version => MisfireView::Version,
            Misfire::Conflict(a, b) => MisfireView::Conflict(a@, b@),
            Misfire::Useless(a, given, b) => MisfireView::Useless(a@, given, b@),
            Misfire::Useless2(a, b1, b2) => MisfireView::Useless2(a@, b1@, b2@),
            Misfire::FailedParse(e) => MisfireView::FailedParse(e),
        }
    }
}

/// A result with its misfire, if any, taken by its view.
pub open spec fn outcome<T>(r: Result<T, Misfire>) -> Result<T, MisfireView> {
    match r {
        Ok(v) => Ok(v),
        Err(e) => Err(e@),
    }
}

/// The line, or block, that tells the user of a misfire.
pub open spec fn message_of(misfire: MisfireView) -> Seq<char> {
    match misfire {
        MisfireView::InvalidOptions(fail) => fail_message(fail),
        MisfireView::Help(text) => text,
        MisfireView::Version => "exa "@ + VERSION@,
        MisfireView::Conflict(a, b) => "Option --"@ + a + " conflicts with option "@ + b + "."@,
        MisfireView::Useless(a, false, b) => "Option --"@ + a + " is useless without option --"@
            + b + "."@,
        MisfireView::Useless(a, true, b) => "Option --"@ + a + " is useless given option --"@ + b
            + "."@,
        MisfireView::Useless2(a, b1, b2) => "Option --"@ + a + " is useless without options --"@
            + b1 + " or --"@ + b2 + "."@,
        MisfireView::FailedParse(error) => "Failed to parse number: "@ + parse_error_text(error),
    }
}

impl Misfire {
    /// The text to show the user.
    pub fn message(&self) -> (text: String)
        ensures
            text@ == message_of(self@),
    {
        match self {
            Misfire::InvalidOptions(fail) => fail_text(fail),
            Misfire::Help(text) => text.clone(),
            Misfire::Version => String::from_str("exa ").concat(VERSION),
            Misfire::Conflict(a, b) => String::from_str("Option --").concat(a).concat(
                " conflicts with option ",
            ).concat(b).concat("."),
            Misfire::Useless(a, false, b) => String::from_str("Option --").concat(a).concat(
                " is useless without option --",
            ).concat(b).concat("."),
            Misfire::Useless(a, true, b) => String::from_str("Option --").concat(a).concat(
                " is useless given option --",
            ).concat(b).concat("."),
            Misfire::Useless2(a, b1, b2) => String::from_str("Option --").concat(a).concat(
                " is useless without options --",
            ).concat(b1).concat(" or --").concat(b2).concat("."),
            Misfire::FailedParse(error) => {
                let detail = describe_parse_error(error);
                String::from_str("Failed to parse number: ").concat(detail.as_str())
            },
        }
    }

    /// The OS return code this misfire should signify: 2 for help, which is
    /// informational, and 3 for everything else.
    pub fn error_code(&self) -> (code: i32)
        ensures
            code == (if *self is Help { 2i32 } else { 3i32 }),
    {
        match self {
            Misfire::Help(_) => 2,
            _ => 3,
        }
    }
}

} // verus!
