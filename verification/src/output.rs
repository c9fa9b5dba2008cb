//! The configurations of the four ways to render a listing.

use vstd::prelude::*;
use crate::columns::Columns;
use crate::dir_action::RecurseOptions;
use crate::filter::FileFilter;

verus! {

/// Whether the output is coloured.
#[derive(PartialEq, Eq, Debug, Copy, Clone)]
pub enum Colours {
    Plain,
    Colourful,
}

impl Colours {
    pub fn plain() -> (colours: Colours)
        ensures
            colours == Colours::Plain,
    {
        Colours::Plain
    }

    pub fn colourful() -> (colours: Colours)
        ensures
            colours == Colours::Colourful,
    {
        Colours::Colourful
    }

    /// Colours for a terminal, none for anything else.
    pub open spec fn for_terminal(terminal: bool) -> Colours {
        if terminal {
            Colours::Colourful
        } else {
            Colours::Plain
        }
    }
}

/// A table with one row for each file.
#[derive(PartialEq, Eq, Debug, Copy, Clone)]
pub struct Details {
    /// The columns of the table, or `None` for a bare tree of names.
    pub columns: Option<Columns>,
    /// Whether a header row stands at the top.
    pub header: bool,
    /// How to recurse, if at all.
    pub recurse: Option<RecurseOptions>,
    /// How the files of each directory are filtered and sorted.
    pub filter: FileFilter,
    /// Whether extended attributes are listed under each file.
    pub xattr: bool,
    pub colours: Colours,
}

/// Names laid out in as many columns as fit the terminal.
#[derive(PartialEq, Eq, Debug, Copy, Clone)]
pub struct Grid {
    /// Whether the names fill the grid row by row rather than column by
    /// column.
    pub across: bool,
    pub console_width: usize,
    pub colours: Colours,
}

/// Several detail tables side by side.
#[derive(PartialEq, Eq, Debug, Copy, Clone)]
pub struct GridDetails {
    pub grid: Grid,
    pub details: Details,
}

/// One name on each line.
#[derive(PartialEq, Eq, Debug, Copy, Clone)]
pub struct Lines {
    pub colours: Colours,
}

} // verus!
