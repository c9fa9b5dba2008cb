//! How two files compare under each sort field.

use std::cmp::Ordering;
use vstd::prelude::*;
use vstd::string::*;
use crate::file::File;
use crate::filter::FileFilter;
use crate::vocabulary::SortField;

verus! {

/// The natural order of two names, as `natord::compare` decides it: runs
/// of digits compare by the numbers they denote.
pub uninterp spec fn natural_order(left: Seq<char>, right: Seq<char>) -> Ordering;

/// `natord::compare`. The result depends on the two texts alone.
#[verifier::external_body]
pub(crate) fn natural_compare(left: &str, right: &str) -> (order: Ordering)
    ensures
        order == natural_order(left@, right@),
{
    natord::compare(left, right)
}

/// The order of two texts character by character: the first place where
/// they differ decides, and a text comes before every longer text that
/// starts with it.
pub open spec fn text_order(left: Seq<char>, right: Seq<char>) -> Ordering
    decreases left.len(),
{
    if left.len() == 0 {
        if right.len() == 0 {
            Ordering::Equal
        } else {
            Ordering::Less
        }
    } else if right.len() == 0 {
        Ordering::Greater
    } else if left[0] < right[0] {
        Ordering::Less
    } else if left[0] > right[0] {
        Ordering::Greater
    } else {
        text_order(left.drop_first(), right.drop_first())
    }
}

/// `Ord::cmp` of `str`: the standard library orders texts byte by byte,
/// which for its encoding is the order of their characters.
#[verifier::external_body]
pub(crate) fn compare_text(left: &str, right: &str) -> (order: Ordering)
    ensures
        order == text_order(left@, right@),
{
    left.cmp(right)
}

/// The order of two extensions: none comes before any, and two are
/// ordered as texts.
pub open spec fn extension_order(left: Option<String>, right: Option<String>) -> Ordering {
    match (left, right) {
        (None, None) => Ordering::Equal,
        (None, Some(_)) => Ordering::Less,
        (Some(_), None) => Ordering::Greater,
        (Some(l), Some(r)) => text_order(l@, r@),
    }
}

/// The order of two unsigned numbers.
pub open spec fn unsigned_order(left: u64, right: u64) -> Ordering {
    if left < right {
        Ordering::Less
    } else if left > right {
        Ordering::Greater
    } else {
        Ordering::Equal
    }
}

/// The order of two signed numbers.
pub open spec fn signed_order(left: i64, right: i64) -> Ordering {
    if left < right {
        Ordering::Less
    } else if left > right {
        Ordering::Greater
    } else {
        Ordering::Equal
    }
}

fn compare_extensions(left: &Option<String>, right: &Option<String>) -> (order: Ordering)
    ensures
        order == extension_order(*left, *right),
{
    match (left, right) {
        (None, None) => Ordering::Equal,
        (None, Some(_)) => Ordering::Less,
        (Some(_), None) => Ordering::Greater,
        (Some(l), Some(r)) => compare_text(l.as_str(), r.as_str()),
    }
}

fn compare_unsigned(left: u64, right: u64) -> (order: Ordering)
    ensures
        order == unsigned_order(left, right),
{
    if left < right {
        Ordering::Less
    } else if left > right {
        Ordering::Greater
    } else {
        Ordering::Equal
    }
}

fn compare_signed(left: i64, right: i64) -> (order: Ordering)
    ensures
        order == signed_order(left, right),
{
    if left < right {
        Ordering::Less
    } else if left > right {
        Ordering::Greater
    } else {
        Ordering::Equal
    }
}

impl FileFilter {
    /// How two files compare under the sort field. Unsorted files are all
    /// equal; names compare in natural order; sizes, inodes and times as
    /// numbers; extensions as texts, with the natural order of the names to
    /// break a tie.
    pub open spec fn ordering(self, a: File, b: File) -> Ordering {
        match self.sort_field {
            SortField::Unsorted => Ordering::Equal,
            SortField::Name => natural_order(a.name@, b.name@),
            SortField::Size => unsigned_order(a.size, b.size),
            SortField::FileInode => unsigned_order(a.inode, b.inode),
            SortField::ModifiedDate => signed_order(a.modified, b.modified),
            SortField::AccessedDate => signed_order(a.accessed, b.accessed),
            SortField::CreatedDate => signed_order(a.created, b.created),
            SortField::Extension => match extension_order(a.ext, b.ext) {
                Ordering::Equal => natural_order(a.name@, b.name@),
                order => order,
            },
        }
    }

    pub fn compare_files(&self, a: &File, b: &File) -> (order: Ordering)
        ensures
            order == self.ordering(*a, *b),
    {
        match self.sort_field {
            SortField::Unsorted => Ordering::Equal,
            SortField::Name => natural_compare(a.name.as_str(), b.name.as_str()),
            SortField::Size => compare_unsigned(a.size, b.size),
            SortField::FileInode => compare_unsigned(a.inode, b.inode),
            SortField::ModifiedDate => compare_signed(a.modified, b.modified),
            SortField::AccessedDate => compare_signed(a.accessed, b.accessed),
            SortField::CreatedDate => compare_signed(a.created, b.created),
            SortField::Extension => match compare_extensions(&a.ext, &b.ext) {
                Ordering::Equal => natural_compare(a.name.as_str(), b.name.as_str()),
                order => order,
            },
        }
    }

    /// Whether the sort field puts the first of two files after the second.
    pub open spec fn after(self, a: File, b: File) -> bool {
        self.ordering(a, b) is Greater
    }

    /// The relation by which the files are sorted.
    pub open spec fn relation(self) -> spec_fn(File, File) -> bool {
        |a: File, b: File| self.after(a, b)
    }

    /// Whether the first of two files has to come after the second.
    pub fn comes_after(&self, a: &File, b: &File) -> (after: bool)
        ensures
            after == self.after(*a, *b),
    {
        match self.compare_files(a, b) {
            Ordering::Greater => true,
            _ => false,
        }
    }
}

} // verus!
