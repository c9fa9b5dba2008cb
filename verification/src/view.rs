//! The reconciliation of the view flags into one way to render a listing.

use vstd::prelude::*;
use vstd::view::View as _;
use crate::columns::Columns;
use crate::dir_action::DirAction;
use crate::filter::FileFilter;
use crate::flags::{Environment, Flags, FlagsView};
use crate::misfire::{outcome, Misfire, MisfireView};
use crate::output::{Colours, Details, Grid, GridDetails, Lines};

verus! {

/// The way to render a listing. Exactly one of the four is chosen.
#[derive(PartialEq, Eq, Debug, Copy, Clone)]
pub enum View {
    Details(Details),
    Grid(Grid),
    GridDetails(GridDetails),
    Lines(Lines),
}

impl View {
    /// The details of a long listing. `across` is useless here unless a
    /// grid is asked for as well, and `oneline` always is; after these two
    /// the columns decide.
    pub open spec fn long_details(
        flags: FlagsView,
        filter: FileFilter,
        dir_action: DirAction,
        env: Environment,
    ) -> Result<Details, MisfireView> {
        if flags.across && !flags.grid {
            Err(MisfireView::Useless("across"@, true, "long"@))
        } else if flags.oneline {
            Err(MisfireView::Useless("oneline"@, true, "long"@))
        } else {
            match Columns::deduced(flags, env) {
                Err(e) => Err(e),
                Ok(columns) => Ok(
                    Details {
                        columns: Some(columns),
                        header: flags.header,
                        recurse: dir_action.recursion(),
                        filter: filter,
                        xattr: env.xattr && flags.extended,
                        colours: Colours::for_terminal(env.console_width is Some),
                    },
                ),
            }
        }
    }

    /// The first option of a flag set that only means something in a long
    /// listing, in the order in which they are blamed.
    pub open spec fn long_only_option(flags: FlagsView) -> Option<Seq<char>> {
        if flags.binary {
            Some("binary"@)
        } else if flags.bytes {
            Some("bytes"@)
        } else if flags.inode {
            Some("inode"@)
        } else if flags.links {
            Some("links"@)
        } else if flags.header {
            Some("header"@)
        } else if flags.blocks {
            Some("blocks"@)
        } else if flags.time is Some {
            Some("time"@)
        } else if flags.group {
            Some("group"@)
        } else {
            None
        }
    }

    /// What is wrong with a flag set that does not ask for a long listing,
    /// if anything: an option that needs `long`, then `git`, then a `level`
    /// with neither `recurse` nor `tree`, then `extended`.
    pub open spec fn misuse_without_long(flags: FlagsView, env: Environment) -> Option<
        MisfireView,
    > {
        match View::long_only_option(flags) {
            Some(option) => Some(MisfireView::Useless(option, false, "long"@)),
            None => {
                if env.git && flags.git {
                    Some(MisfireView::Useless("git"@, false, "long"@))
                } else if flags.level is Some && !flags.recurse && !flags.tree {
                    Some(MisfireView::Useless2("level"@, "recurse"@, "tree"@))
                } else if env.xattr && flags.extended {
                    Some(MisfireView::Useless("extended"@, false, "long"@))
                } else {
                    None
                }
            },
        }
    }

    /// The view of a flag set when the long listing is left aside. Without
    /// a terminal it is plain lines. On a terminal `oneline` gives lines
    /// (where `across` is useless), `tree` gives details without columns,
    /// and everything else a grid as wide as the terminal.
    pub open spec fn base_view(
        flags: FlagsView,
        filter: FileFilter,
        dir_action: DirAction,
        env: Environment,
    ) -> Result<View, MisfireView> {
        match env.console_width {
            Some(width) => {
                if flags.oneline {
                    if flags.across {
                        Err(MisfireView::Useless("across"@, true, "oneline"@))
                    } else {
                        Ok(View::Lines(Lines { colours: Colours::Colourful }))
                    }
                } else if flags.tree {
                    Ok(
                        View::Details(
                            Details {
                                columns: None,
                                header: false,
                                recurse: dir_action.recursion(),
                                filter: filter,
                                xattr: false,
                                colours: Colours::Colourful,
                            },
                        ),
                    )
                } else {
                    Ok(
                        View::Grid(
                            Grid {
                                across: flags.across,
                                console_width: width,
                                colours: Colours::Colourful,
                            },
                        ),
                    )
                }
            },
            None => Ok(View::Lines(Lines { colours: Colours::Plain })),
        }
    }

    /// The view of a flag set.
    ///
    /// With `long`, the details are settled first. Then, with `grid` too,
    /// the base view decides: a grid is combined with the details, and
    /// anything else it comes to, a view or a misfire, is the result.
    /// Without `grid` the details are the view.
    ///
    /// Without `long`, any misuse of an option that needs it is reported,
    /// and otherwise the base view is the result.
    pub open spec fn deduced(
        flags: FlagsView,
        filter: FileFilter,
        dir_action: DirAction,
        env: Environment,
    ) -> Result<View, MisfireView> {
        if flags.long {
            match View::long_details(flags, filter, dir_action, env) {
                Err(e) => Err(e),
                Ok(details) => {
                    if flags.grid {
                        match View::base_view(flags, filter, dir_action, env) {
                            Ok(View::Grid(grid)) => Ok(
                                View::GridDetails(GridDetails { grid: grid, details: details }),
                            ),
                            other => other,
                        }
                    } else {
                        Ok(View::Details(details))
                    }
                },
            }
        } else {
            match View::misuse_without_long(flags, env) {
                Some(misfire) => Err(misfire),
                None => View::base_view(flags, filter, dir_action, env),
            }
        }
    }

    /// Settles the details of a long listing.
    pub fn long(
        flags: &Flags,
        filter: FileFilter,
        dir_action: DirAction,
        env: &Environment,
    ) -> (r: Result<Details, Misfire>)
        ensures
            outcome(r) == View::long_details(flags@, filter, dir_action, *env),
    {
        if flags.across && !flags.grid {
            Err(Misfire::Useless("across", true, "long"))
        } else if flags.oneline {
            Err(Misfire::Useless("oneline", true, "long"))
        } else {
            let columns = match Columns::deduce(flags, env) {
                Ok(columns) => columns,
                Err(e) => {
                    return Err(e);
                },
            };
            let details = Details {
                columns: Some(columns),
                header: flags.header,
                recurse: dir_action.recurse_options(),
                filter: filter,
                xattr: env.xattr && flags.extended,
                colours: if env.console_width.is_some() {
                    Colours::colourful()
                } else {
                    Colours::plain()
                },
            };

            Ok(details)
        }
    }

    /// Looks for an option that is useless without `long`.
    pub fn long_options_scan(flags: &Flags, env: &Environment) -> (r: Result<(), Misfire>)
        ensures
            match View::misuse_without_long(flags@, *env) {
                Some(misfire) => r matches Err(e) && e@ == misfire,
                None => r is Ok,
            },
    {
        if flags.binary {
            Err(Misfire::Useless("binary", false, "long"))
        } else if flags.bytes {
            Err(Misfire::Useless("bytes", false, "long"))
        } else if flags.inode {
            Err(Misfire::Useless("inode", false, "long"))
        } else if flags.links {
            Err(Misfire::Useless("links", false, "long"))
        } else if flags.header {
            Err(Misfire::Useless("header", false, "long"))
        } else if flags.blocks {
            Err(Misfire::Useless("blocks", false, "long"))
        } else if flags.time.is_some() {
            Err(Misfire::Useless("time", false, "long"))
        } else if flags.group {
            Err(Misfire::Useless("group", false, "long"))
        } else if env.git && flags.git {
            Err(Misfire::Useless("git", false, "long"))
        } else if flags.level.is_some() && !flags.recurse && !flags.tree {
            Err(Misfire::Useless2("level", "recurse", "tree"))
        } else if env.xattr && flags.extended {
            Err(Misfire::Useless("extended", false, "long"))
        } else {
            Ok(())
        }
    }

    /// Chooses between lines, a tree and a grid.
    pub fn other_options_scan(
        flags: &Flags,
        filter: FileFilter,
        dir_action: DirAction,
        env: &Environment,
    ) -> (r: Result<View, Misfire>)
        ensures
            outcome(r) == View::base_view(flags@, filter, dir_action, *env),
    {
        if let Some(width) = env.console_width {
            if flags.oneline {
                if flags.across {
                    Err(Misfire::Useless("across", true, "oneline"))
                } else {
                    let lines = Lines { colours: Colours::colourful() };

                    Ok(View::Lines(lines))
                }
            } else if flags.tree {
                let details = Details {
                    columns: None,
                    header: false,
                    recurse: dir_action.recurse_options(),
                    filter: filter,
                    xattr: false,
                    colours: Colours::colourful(),
                };

                Ok(View::Details(details))
            } else {
                let grid = Grid {
                    across: flags.across,
                    console_width: width,
                    colours: Colours::colourful(),
                };

                Ok(View::Grid(grid))
            }
        } else {
            // Without a terminal width, such as when the output goes to a
            // file, fall back to the lines view.
            let lines = Lines { colours: Colours::plain() };

            Ok(View::Lines(lines))
        }
    }

    /// Reconciles the view flags of a flag set into one view.
    pub fn deduce(
        flags: &Flags,
        filter: FileFilter,
        dir_action: DirAction,
        env: &Environment,
    ) -> (r: Result<View, Misfire>)
        ensures
            outcome(r) == View::deduced(flags@, filter, dir_action, *env),
    {
        if flags.long {
            let long_options = match View::long(flags, filter, dir_action, env) {
                Ok(details) => details,
                Err(e) => {
                    return Err(e);
                },
            };

            if flags.grid {
                match View::other_options_scan(flags, filter, dir_action, env) {
                    Ok(View::Grid(grid)) => {
                        return Ok(
                            View::GridDetails(GridDetails { grid: grid, details: long_options }),
                        );
                    },
                    Ok(lines) => {
                        return Ok(lines);
                    },
                    Err(e) => {
                        return Err(e);
                    },
                };
            } else {
                return Ok(View::Details(long_options));
            }
        }
        match View::long_options_scan(flags, env) {
            Ok(()) => {},
            Err(e) => {
                return Err(e);
            },
        }

        View::other_options_scan(flags, filter, dir_action, env)
    }
}

} // verus!
