//! The whole configuration that a command line comes to.

use vstd::prelude::*;
use vstd::string::*;
use vstd::view::View as _;
use crate::arguments::{build_parser, lemma_table_askable, parser_of};
use crate::dir_action::DirAction;
use crate::file::File;
use crate::filter::FileFilter;
use crate::flags::{Environment, Flags, FlagsView};
use crate::misfire::{Misfire, MisfireView};
use crate::output::{Details, GridDetails};
use crate::parser::{free, matched, opt_present, parse, parse_outcome, texts, usage, usage_text};
use crate::view::View;

verus! {

/// The heading of the usage text.
pub const USAGE: &'static str = "Usage:\n  exa [options] [files...]";

/// A parsed version of the user's command-line options.
#[derive(PartialEq, Eq, Debug, Copy, Clone)]
pub struct Options {
    pub dir_action: DirAction,
    pub filter: FileFilter,
    pub view: View,
}

/// A resolution with its paths and its misfire taken by their views.
pub open spec fn resolved(r: Result<(Options, Vec<String>), Misfire>) -> Result<
    (Options, Seq<Seq<char>>),
    MisfireView,
> {
    match r {
        Ok((options, paths)) => Ok((options, texts(paths@))),
        Err(e) => Err(e@),
    }
}

/// The paths to list: the free arguments, or the current directory when
/// there are none.
pub open spec fn paths_of(free: Seq<Seq<char>>) -> Seq<Seq<char>> {
    if free.len() == 0 {
        seq!["."@]
    } else {
        free
    }
}

impl Options {
    /// The configuration of a flag set and the paths to list. The filter
    /// is settled first, then the directory action, then the view; the first
    /// of them to fail decides the misfire.
    pub open spec fn deduced(flags: FlagsView, free: Seq<Seq<char>>, env: Environment) -> Result<
        (Options, Seq<Seq<char>>),
        MisfireView,
    > {
        match FileFilter::deduced(flags) {
            Err(e) => Err(e),
            Ok(filter) => match DirAction::deduced(flags) {
                Err(e) => Err(e),
                Ok(dir_action) => match View::deduced(flags, filter, dir_action, env) {
                    Err(e) => Err(e),
                    Ok(view) => Ok(
                        (
                            Options { dir_action: dir_action, filter: filter, view: view },
                            paths_of(free),
                        ),
                    ),
                },
            },
        }
    }

    /// What a command line resolves to. A command line that the parser
    /// rejects is a misfire, and so is one that asks for help or, failing
    /// that, for the version, whatever else it holds. Any other resolves as
    /// its flag set and free arguments do.
    pub open spec fn resolution(args: Seq<Seq<char>>, env: Environment) -> Result<
        (Options, Seq<Seq<char>>),
        MisfireView,
    > {
        match parse_outcome(parser_of(env), args) {
            Err(fail) => Err(MisfireView::InvalidOptions(fail)),
            Ok(parsed) => {
                if parsed.present("help"@) {
                    Err(MisfireView::Help(usage_text(parser_of(env), USAGE@)))
                } else if parsed.present("version"@) {
                    Err(MisfireView::Version)
                } else {
                    Options::deduced(Flags::of(parsed, env), parsed.free, env)
                }
            },
        }
    }

    /// Parses the given command-line strings and resolves them.
    pub fn getopts(args: &[String], env: &Environment) -> (r: Result<
        (Options, Vec<String>),
        Misfire,
    >)
        ensures
            resolved(r) == Options::resolution(texts(args@), *env),
            r matches Err(Misfire::Help(text)) ==> text@.len() > 0,
    {
        let parser = build_parser(env);

        let matches = match parse(&parser, args) {
            Ok(m) => m,
            Err(e) => {
                return Err(Misfire::InvalidOptions(e));
            },
        };
        proof {
            lemma_table_askable(matched(matches), *env);
        }

        if opt_present(&matches, "help") {
            return Err(Misfire::Help(usage(&parser, USAGE)));
        } else if opt_present(&matches, "version") {
            return Err(Misfire::Version);
        }
        let flags = Flags::read(&matches, env);
        Options::deduce(&flags, free(&matches), env)
    }

    /// Resolves a flag set and the free arguments that came with it.
    pub fn deduce(flags: &Flags, free: Vec<String>, env: &Environment) -> (r: Result<
        (Options, Vec<String>),
        Misfire,
    >)
        ensures
            resolved(r) == Options::deduced(flags@, texts(free@), *env),
            flags@.sort is None ==> (r matches Ok((options, _)) ==> options.filter.sort_field
                == crate::vocabulary::SortField::Name),
    {
        let filter = match FileFilter::deduce(flags) {
            Ok(filter) => filter,
            Err(e) => {
                return Err(e);
            },
        };

        let path_strs = if free.len() == 0 {
            let mut paths: Vec<String> = Vec::new();
            paths.push(String::from_str("."));
            paths
        } else {
            free
        };
        assert(texts(path_strs@) =~= paths_of(texts(free@)));

        let dir_action = match DirAction::deduce(flags) {
            Ok(action) => action,
            Err(e) => {
                return Err(e);
            },
        };
        let view = match View::deduce(flags, filter, dir_action, env) {
            Ok(view) => view,
            Err(e) => {
                return Err(e);
            },
        };

        Ok((Options { dir_action: dir_action, view: view, filter: filter }, path_strs))
    }

    /// Sorts a list of files into the order in which they are shown.
    pub fn sort_files(&self, files: &mut Vec<File>)
        ensures
            final(files)@ == self.filter.sorted(old(files)@),
    {
        self.filter.sort_files(files)
    }

    /// Removes the hidden files from a list, unless they are to be shown.
    pub fn filter_files(&self, files: &mut Vec<File>)
        ensures
            final(files)@ == self.filter.filtered(old(files)@),
    {
        self.filter.filter_files(files)
    }

    /// Whether the view includes a repository status column. It's only
    /// worth trying to discover a repository if the results will end up
    /// being displayed.
    pub fn should_scan_for_git(&self) -> (scan: bool)
        ensures
            scan == match self.view {
                View::Details(details) => details.columns matches Some(columns) && columns.git,
                View::GridDetails(both) => both.details.columns matches Some(columns)
                    && columns.git,
                _ => false,
            },
    {
        match self.view {
            View::Details(Details { columns: Some(cols), .. }) => cols.should_scan_for_git(),
            View::GridDetails(GridDetails { details: Details { columns: Some(cols), .. }, .. }) => {
                cols.should_scan_for_git()
            },
            _ => false,
        }
    }
}

} // verus!
