//! What is known of one file of a listing.

use vstd::prelude::*;
use vstd::string::*;

verus! {

/// A file as the filter and the sort see it: its name and the metadata
/// that files can be ordered by.
#[derive(Clone, PartialEq, Eq, Debug)]
pub struct File {
    /// The file's name, without its directory.
    pub name: String,
    /// The extension of the name, if it has one.
    pub ext: Option<String>,
    /// Whether the file is a directory.
    pub is_dir: bool,
    /// The size in bytes.
    pub size: u64,
    /// The inode number.
    pub inode: u64,
    /// The time of the last modification, in seconds since the epoch.
    pub modified: i64,
    /// The time of the last access.
    pub accessed: i64,
    /// The time of creation.
    pub created: i64,
}

impl File {
    /// Whether a name marks its file as hidden: it starts with a dot.
    pub open spec fn dot_name(name: Seq<char>) -> bool {
        name.len() > 0 && name[0] == '.'
    }

    pub fn is_directory(&self) -> (dir: bool)
        ensures
            dir == self.is_dir,
    {
        self.is_dir
    }

    /// Whether this file is hidden from ordinary listings.
    pub fn is_dotfile(&self) -> (hidden: bool)
        ensures
            hidden == File::dot_name(self.name@),
    {
        let name = self.name.as_str();
        name.unicode_len() > 0 && name.get_char(0) == '.'
    }
}

} // verus!
