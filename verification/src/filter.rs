//! Which files of a directory are shown, and in what order.

use vstd::prelude::*;
use vstd::seq_lib::*;
use crate::file::File;
use crate::order::{slot, stable_sort};
use crate::flags::{Flags, FlagsView};
use crate::misfire::{outcome, Misfire, MisfireView};
use crate::vocabulary::SortField;

verus! {

/// How the files of a directory are filtered and sorted.
#[derive(PartialEq, Eq, Debug, Copy, Clone)]
pub struct FileFilter {
    /// Whether directories come before everything else.
    pub list_dirs_first: bool,
    /// Whether the sorted order is reversed.
    pub reverse: bool,
    /// Whether files whose name starts with a dot are shown.
    pub show_invisibles: bool,
    pub sort_field: SortField,
}

impl Default for FileFilter {
    fn default() -> (filter: FileFilter)
        ensures
            filter == (FileFilter {
                list_dirs_first: false,
                reverse: false,
                show_invisibles: false,
                sort_field: SortField::Name,
            }),
    {
        FileFilter {
            list_dirs_first: false,
            reverse: false,
            show_invisibles: false,
            sort_field: SortField::Name,
        }
    }
}

impl FileFilter {
    /// The filter of a flag set. Only the sort word can be wrong.
    pub open spec fn deduced(flags: FlagsView) -> Result<FileFilter, MisfireView> {
        match SortField::deduced(flags) {
            Ok(field) => Ok(
                FileFilter {
                    list_dirs_first: flags.group_directories_first,
                    reverse: flags.reverse,
                    show_invisibles: flags.all,
                    sort_field: field,
                },
            ),
            Err(e) => Err(e),
        }
    }

    pub fn deduce(flags: &Flags) -> (r: Result<FileFilter, Misfire>)
        ensures
            outcome(r) == FileFilter::deduced(flags@),
    {
        match SortField::deduce(flags) {
            Ok(field) => Ok(
                FileFilter {
                    list_dirs_first: flags.group_directories_first,
                    reverse: flags.reverse,
                    show_invisibles: flags.all,
                    sort_field: field,
                },
            ),
            Err(e) => Err(e),
        }
    }

    /// The files that the filter shows: all of them, or those that are not
    /// hidden, in the order in which they stood.
    pub open spec fn filtered(self, files: Seq<File>) -> Seq<File> {
        if self.show_invisibles {
            files
        } else {
            files.filter(visible())
        }
    }

    /// The order in which the filter shows files. They are sorted by the
    /// sort field, each file behind those that need not come after it. Then
    /// the whole is reversed, if that is asked for. Last, and so whatever the
    /// direction, directories are brought to the front, if that is asked for.
    pub open spec fn sorted(self, files: Seq<File>) -> Seq<File> {
        let by_field = stable_sort(files, self.relation());
        let directed = if self.reverse {
            by_field.reverse()
        } else {
            by_field
        };
        if self.list_dirs_first {
            dirs_first(directed)
        } else {
            directed
        }
    }

    /// Removes the hidden files from a list, unless they are to be shown.
    pub fn filter_files(&self, files: &mut Vec<File>)
        ensures
            final(files)@ == self.filtered(old(files)@),
    {
        if !self.show_invisibles {
            let ghost given = files@;
            reverse_files(files);
            let mut out: Vec<File> = Vec::new();
            while files.len() > 0
                invariant
                    files.len() <= given.len(),
                    files@ == given.reverse().take(files.len() as int),
                    out@ == given.take(given.len() - files.len()).filter(visible()),
                decreases files.len(),
            {
                let ghost done = given.len() - files.len();
                let f = files.pop().unwrap();
                proof {
                    assert(f == given[done]);
                    assert(given.take(done + 1) =~= given.take(done).push(f));
                    given.take(done).lemma_filter_push(f, visible());
                }
                if !f.is_dotfile() {
                    out.push(f);
                }
            }
            assert(given.take(given.len() as int) =~= given);
            *files = out;
        }
    }

    /// Sorts a list of files into the order in which they are shown.
    pub fn sort_files(&self, files: &mut Vec<File>)
        ensures
            final(files)@ == self.sorted(old(files)@),
    {
        self.sort_by_field(files);

        if self.reverse {
            reverse_files(files);
        }

        if self.list_dirs_first {
            group_dirs_first(files);
        }
    }

    /// Sorts a list of files by the sort field alone.
    pub fn sort_by_field(&self, files: &mut Vec<File>)
        ensures
            final(files)@ == stable_sort(old(files)@, self.relation()),
    {
        let ghost given = files@;
        reverse_files(files);
        let mut out: Vec<File> = Vec::new();
        while files.len() > 0
            invariant
                files.len() <= given.len(),
                files@ == given.reverse().take(files.len() as int),
                out@ == stable_sort(given.take(given.len() - files.len()), self.relation()),
            decreases files.len(),
        {
            let ghost done = given.len() - files.len();
            let x = files.pop().unwrap();
            proof {
                assert(x == given[done]);
                assert(given.take(done + 1).drop_last() =~= given.take(done));
                assert(given.take(done + 1).last() == x);
            }
            let place = self.find_slot(&out, &x);
            out.insert(place, x);
        }
        assert(given.take(given.len() as int) =~= given);
        *files = out;
    }

    /// Finds where a file belongs among sorted files.
    fn find_slot(&self, sorted: &Vec<File>, x: &File) -> (place: usize)
        ensures
            place == slot(sorted@, *x, self.relation()),
            place <= sorted.len(),
    {
        let mut place = sorted.len();
        proof {
            assert(sorted@.take(sorted@.len() as int) =~= sorted@);
        }
        while place > 0 && self.comes_after(&sorted[place - 1], x)
            invariant
                place <= sorted.len(),
                slot(sorted@, *x, self.relation()) == slot(
                    sorted@.take(place as int),
                    *x,
                    self.relation(),
                ),
            decreases place,
        {
            proof {
                assert(sorted@.take(place as int).drop_last() =~= sorted@.take(place - 1));
            }
            place -= 1;
        }
        place
    }
}

/// The files that are not hidden.
pub open spec fn visible() -> spec_fn(File) -> bool {
    |f: File| !File::dot_name(f.name@)
}

/// The files that are directories.
pub open spec fn is_dir() -> spec_fn(File) -> bool {
    |f: File| f.is_dir
}

/// The files that are not directories.
pub open spec fn is_other() -> spec_fn(File) -> bool {
    |f: File| !f.is_dir
}

/// A list with its directories brought to the front: the directories in
/// the order in which they stood, then everything else in the order in
/// which it stood.
pub open spec fn dirs_first(files: Seq<File>) -> Seq<File> {
    files.filter(is_dir()) + files.filter(is_other())
}

/// Reverses a list of files.
pub fn reverse_files(files: &mut Vec<File>)
    ensures
        final(files)@ == old(files)@.reverse(),
{
    let ghost given = files@;
    let mut out: Vec<File> = Vec::new();
    while files.len() > 0
        invariant
            files.len() <= given.len(),
            files@ == given.take(files.len() as int),
            out@.len() == given.len() - files.len(),
            forall|i: int| 0 <= i < out@.len() ==> out@[i] == given[given.len() - 1 - i],
        decreases files.len(),
    {
        let f = files.pop().unwrap();
        out.push(f);
    }
    assert(out@ =~= given.reverse());
    *files = out;
}

/// Brings the directories of a list to the front, keeping the order among
/// the directories and among the rest.
pub fn group_dirs_first(files: &mut Vec<File>)
    ensures
        final(files)@ == dirs_first(old(files)@),
{
    let ghost given = files@;
    reverse_files(files);
    let mut dirs: Vec<File> = Vec::new();
    let mut others: Vec<File> = Vec::new();
    while files.len() > 0
        invariant
            files.len() <= given.len(),
            files@ == given.reverse().take(files.len() as int),
            dirs@ == given.take(given.len() - files.len()).filter(is_dir()),
            others@ == given.take(given.len() - files.len()).filter(is_other()),
        decreases files.len(),
    {
        let ghost done = given.len() - files.len();
        let f = files.pop().unwrap();
        proof {
            assert(f == given[done]);
            assert(given.take(done + 1) =~= given.take(done).push(f));
            given.take(done).lemma_filter_push(f, is_dir());
            given.take(done).lemma_filter_push(f, is_other());
        }
        if f.is_directory() {
            dirs.push(f);
        } else {
            others.push(f);
        }
    }
    assert(given.take(given.len() as int) =~= given);
    dirs.append(&mut others);
    *files = dirs;
}

} // verus!
