//! The flag set that argument parsing produces, and the facts about the
//! running process that resolution depends on.

use vstd::prelude::*;
use vstd::string::*;

verus! {

/// Which options a command line gave. An option that takes no value is a
/// `bool`, one that takes a value holds that value when it was given.
#[derive(Clone, PartialEq, Eq, Debug, Default)]
pub struct Flags {
    pub oneline: bool,
    pub all: bool,
    pub binary: bool,
    pub bytes: bool,
    pub list_dirs: bool,
    pub group: bool,
    pub grid: bool,
    pub group_directories_first: bool,
    pub header: bool,
    pub links: bool,
    pub inode: bool,
    pub long: bool,
    pub level: Option<String>,
    pub modified: bool,
    pub reverse: bool,
    pub recurse: bool,
    pub sort: Option<String>,
    pub blocks: bool,
    pub time: Option<String>,
    pub tree: bool,
    pub accessed: bool,
    pub created: bool,
    pub across: bool,
    pub git: bool,
    pub extended: bool,
}

/// The mathematical value of a `Flags`: the same fields, with each given
/// value as a sequence of characters.
pub struct FlagsView {
    pub oneline: bool,
    pub all: bool,
    pub binary: bool,
    pub bytes: bool,
    pub list_dirs: bool,
    pub group: bool,
    pub grid: bool,
    pub group_directories_first: bool,
    pub header: bool,
    pub links: bool,
    pub inode: bool,
    pub long: bool,
    pub level: Option<Seq<char>>,
    pub modified: bool,
    pub reverse: bool,
    pub recurse: bool,
    pub sort: Option<Seq<char>>,
    pub blocks: bool,
    pub time: Option<Seq<char>>,
    pub tree: bool,
    pub accessed: bool,
    pub created: bool,
    pub across: bool,
    pub git: bool,
    pub extended: bool,
}

/// The characters of an optional text.
pub open spec fn word_view(word: Option<String>) -> Option<Seq<char>> {
    match word {
        Some(w) => Some(w@),
        None => None,
    }
}

impl View for Flags {
    type V = FlagsView;

    open spec fn view(&self) -> FlagsView {
        FlagsView {
            oneline: self.oneline,
            all: self.all,
            binary: self.binary,
            bytes: self.bytes,
            list_dirs: self.list_dirs,
            group: self.group,
            grid: self.grid,
            group_directories_first: self.group_directories_first,
            header: self.header,
            links: self.links,
            inode: self.inode,
            long: self.long,
            level: word_view(self.level),
            modified: self.modified,
            reverse: self.reverse,
            recurse: self.recurse,
            sort: word_view(self.sort),
            blocks: self.blocks,
            time: word_view(self.time),
            tree: self.tree,
            accessed: self.accessed,
            created: self.created,
            across: self.across,
            git: self.git,
            extended: self.extended,
        }
    }
}

/// What resolution needs to know of the process it runs in.
#[derive(Clone, Copy, PartialEq, Eq, Debug)]
pub struct Environment {
    /// The width of the terminal in columns, or `None` when standard output
    /// is not a terminal.
    pub console_width: Option<usize>,
    /// Whether extended attributes can be read on this platform.
    pub xattr: bool,
    /// Whether repository status can be shown.
    pub git: bool,
}

/// Whether two texts hold the same characters.
pub fn same_text(a: &str, b: &str) -> (same: bool)
    ensures
        same == (a@ == b@),
{
    let left = String::from_str(a);
    let right = String::from_str(b);
    left == right
}

} // verus!
