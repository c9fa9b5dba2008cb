//! What to do when a directory is encountered: list it as a file, list
//! its contents, or recurse into it.

use std::num::ParseIntError;
use vstd::prelude::*;
use crate::flags::{Flags, FlagsView};
use crate::misfire::{outcome, Misfire, MisfireView};

verus! {

/// The value of a string of decimal digits.
pub open spec fn decimal_value(digits: Seq<char>) -> nat
    decreases digits.len(),
{
    if digits.len() == 0 {
        0
    } else {
        (10 * decimal_value(digits.drop_last()) + (digits.last() as nat - '0' as nat)) as nat
    }
}

/// Whether a text is one or more of the digits `0` to `9`.
pub open spec fn is_decimal(digits: Seq<char>) -> bool {
    digits.len() > 0 && forall|i: int|
        0 <= i < digits.len() ==> '0' as nat <= #[trigger] digits[i] as nat <= '9' as nat
}

/// The number that a text denotes: decimal digits after an optional `+`.
/// Anything else, a sign with no digit behind it or the empty text, denotes
/// none.
pub open spec fn unsigned_of(text: Seq<char>) -> Option<nat> {
    let digits = if text.len() > 0 && text[0] == '+' {
        text.drop_first()
    } else {
        text
    };
    if is_decimal(digits) {
        Some(decimal_value(digits))
    } else {
        None
    }
}

/// The depth that a text denotes, where it denotes a number that fits the
/// machine word.
pub open spec fn depth_of(text: Seq<char>) -> Option<usize> {
    match unsigned_of(text) {
        Some(n) => if n <= usize::MAX {
            Some(n as usize)
        } else {
            None
        },
        None => None,
    }
}

/// The error that parsing a text as a `usize` reports, for a text that
/// denotes no depth.
pub uninterp spec fn usize_parse_error(text: Seq<char>) -> ParseIntError;

/// `str::parse::<usize>`. The standard library accepts an optional `+`
/// followed by decimal digits and nothing else, and reports a number that
/// does not fit as an error. The error value depends on the text alone.
#[verifier::external_body]
fn parse_usize(text: &str) -> (r: Result<usize, ParseIntError>)
    ensures
        r == match depth_of(text@) {
            Some(n) => Ok::<usize, ParseIntError>(n),
            None => Err::<usize, ParseIntError>(usize_parse_error(text@)),
        },
{
    text.parse::<usize>()
}

/// How to recurse into directories.
#[derive(PartialEq, Eq, Debug, Copy, Clone)]
pub struct RecurseOptions {
    /// Whether the listing is drawn as a tree.
    pub tree: bool,
    /// The depth below which nothing is listed, if there is a bound.
    pub max_depth: Option<usize>,
}

impl RecurseOptions {
    /// The recursion options of a flag set: the depth bound comes from the
    /// `level` value, which has to denote a number.
    pub open spec fn deduced(flags: FlagsView, tree: bool) -> Result<RecurseOptions, MisfireView> {
        match flags.level {
            Some(text) => match depth_of(text) {
                Some(depth) => Ok(RecurseOptions { tree: tree, max_depth: Some(depth) }),
                None => Err(MisfireView::FailedParse(usize_parse_error(text))),
            },
            None => Ok(RecurseOptions { tree: tree, max_depth: None }),
        }
    }

    pub fn deduce(flags: &Flags, tree: bool) -> (r: Result<RecurseOptions, Misfire>)
        ensures
            outcome(r) == RecurseOptions::deduced(flags@, tree),
    {
        let max_depth = match &flags.level {
            Some(level) => match parse_usize(level.as_str()) {
                Ok(l) => Some(l),
                Err(e) => {
                    return Err(Misfire::FailedParse(e));
                },
            },
            None => None,
        };

        Ok(RecurseOptions { tree: tree, max_depth: max_depth })
    }

    /// Whether a directory at this depth is past the bound. Depth 0 is the
    /// listing of the root itself.
    pub fn is_too_deep(&self, depth: usize) -> (too_deep: bool)
        ensures
            too_deep == (self.max_depth matches Some(bound) && bound <= depth),
    {
        match self.max_depth {
            None => false,
            Some(d) => d <= depth,
        }
    }
}

/// What to do when encountering a directory?
#[derive(PartialEq, Eq, Debug, Copy, Clone)]
pub enum DirAction {
    AsFile,
    List,
    Recurse(RecurseOptions),
}

impl DirAction {
    /// The directory action of a flag set, decided by `recurse`, `list-dirs`
    /// and `tree` together. The rows are tried from the top.
    pub open spec fn deduced(flags: FlagsView) -> Result<DirAction, MisfireView> {
        if flags.recurse && flags.list_dirs {
            Err(MisfireView::Conflict("recurse"@, "list-dirs"@))
        } else if flags.list_dirs && flags.tree {
            Err(MisfireView::Conflict("tree"@, "list-dirs"@))
        } else if flags.recurse && !flags.list_dirs && !flags.tree {
            match RecurseOptions::deduced(flags, false) {
                Ok(options) => Ok(DirAction::Recurse(options)),
                Err(e) => Err(e),
            }
        } else if flags.tree {
            match RecurseOptions::deduced(flags, true) {
                Ok(options) => Ok(DirAction::Recurse(options)),
                Err(e) => Err(e),
            }
        } else if flags.list_dirs {
            Ok(DirAction::AsFile)
        } else {
            Ok(DirAction::List)
        }
    }

    pub fn deduce(flags: &Flags) -> (r: Result<DirAction, Misfire>)
        ensures
            outcome(r) == DirAction::deduced(flags@),
            flags@.recurse && flags@.list_dirs ==> outcome(r) == Err::<DirAction, MisfireView>(
                MisfireView::Conflict("recurse"@, "list-dirs"@),
            ),
    {
        let recurse = flags.recurse;
        let list = flags.list_dirs;
        let tree = flags.tree;

        match (recurse, list, tree) {
            (true, true, _) => Err(Misfire::Conflict("recurse", "list-dirs")),
            (_, true, true) => Err(Misfire::Conflict("tree", "list-dirs")),
            (true, false, false) => match RecurseOptions::deduce(flags, false) {
                Ok(options) => Ok(DirAction::Recurse(options)),
                Err(e) => Err(e),
            },
            (_, _, true) => match RecurseOptions::deduce(flags, true) {
                Ok(options) => Ok(DirAction::Recurse(options)),
                Err(e) => Err(e),
            },
            (false, true, _) => Ok(DirAction::AsFile),
            (false, false, _) => Ok(DirAction::List),
        }
    }

    /// The recursion options, where directories are recursed into.
    pub fn recurse_options(&self) -> (options: Option<RecurseOptions>)
        ensures
            options == self.recursion(),
    {
        match *self {
            DirAction::Recurse(opts) => Some(opts),
            _ => None,
        }
    }

    /// The recursion options of a directory action, if it recurses.
    pub open spec fn recursion(self) -> Option<RecurseOptions> {
        match self {
            DirAction::Recurse(options) => Some(options),
            _ => None,
        }
    }

    /// Whether a directory named on the command line is shown as an entry
    /// rather than opened: when listing directories as files, and in a tree.
    pub fn treat_dirs_as_files(&self) -> (as_files: bool)
        ensures
            as_files == match *self {
                DirAction::AsFile => true,
                DirAction::Recurse(options) => options.tree,
                DirAction::List => false,
            },
    {
        match *self {
            DirAction::AsFile => true,
            DirAction::Recurse(RecurseOptions { tree, .. }) => tree,
            _ => false,
        }
    }
}

} // verus!
