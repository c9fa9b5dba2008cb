//! Which columns a detailed listing shows, and in which order.

use vstd::prelude::*;
use crate::flags::{Environment, Flags, FlagsView};
use crate::misfire::{outcome, Misfire, MisfireView};
use crate::vocabulary::{SizeFormat, TimeType, TimeTypes};

verus! {

/// One column of a detailed listing.
#[derive(PartialEq, Eq, Debug, Copy, Clone)]
pub enum Column {
    Permissions,
    FileSize(SizeFormat),
    Timestamp(TimeType),
    Blocks,
    User,
    Group,
    HardLinks,
    Inode,
    GitStatus,
}

/// What is known of the directory that is being listed.
#[derive(PartialEq, Eq, Debug, Copy, Clone)]
pub struct Dir {
    /// Whether the directory lies in a repository.
    pub git_repo: bool,
}

impl Dir {
    pub fn has_git_repo(&self) -> (has: bool)
        ensures
            has == self.git_repo,
    {
        self.git_repo
    }
}

/// The choice of columns for a detailed listing.
#[derive(PartialEq, Eq, Debug, Copy, Clone)]
pub struct Columns {
    pub size_format: SizeFormat,
    pub time_types: TimeTypes,
    pub inode: bool,
    pub links: bool,
    pub blocks: bool,
    pub group: bool,
    /// Whether repository status is wanted. `deduce` sets it only where the
    /// environment can show it.
    pub git: bool,
}

impl Default for Columns {
    fn default() -> (columns: Columns)
        ensures
            columns == (Columns {
                size_format: SizeFormat::DecimalBytes,
                time_types: TimeTypes { accessed: false, modified: true, created: false },
                inode: false,
                links: false,
                blocks: false,
                group: false,
                git: false,
            }),
    {
        Columns {
            size_format: SizeFormat::DecimalBytes,
            time_types: TimeTypes { accessed: false, modified: true, created: false },
            inode: false,
            links: false,
            blocks: false,
            group: false,
            git: false,
        }
    }
}

/// A sequence of columns with one more at its end, if that one is wanted.
pub open spec fn with(columns: Seq<Column>, wanted: bool, column: Column) -> Seq<Column> {
    if wanted {
        columns.push(column)
    } else {
        columns
    }
}

impl Columns {
    /// The columns of a flag set. The size format is settled first, then
    /// the timestamps; the first of the two that fails decides the misfire.
    pub open spec fn deduced(flags: FlagsView, env: Environment) -> Result<Columns, MisfireView> {
        match SizeFormat::deduced(flags) {
            Err(e) => Err(e),
            Ok(size_format) => match TimeTypes::deduced(flags) {
                Err(e) => Err(e),
                Ok(time_types) => Ok(
                    Columns {
                        size_format: size_format,
                        time_types: time_types,
                        inode: flags.inode,
                        links: flags.links,
                        blocks: flags.blocks,
                        group: flags.group,
                        git: env.git && flags.git,
                    },
                ),
            },
        }
    }

    pub fn deduce(flags: &Flags, env: &Environment) -> (r: Result<Columns, Misfire>)
        ensures
            outcome(r) == Columns::deduced(flags@, *env),
    {
        let size_format = match SizeFormat::deduce(flags) {
            Ok(format) => format,
            Err(e) => {
                return Err(e);
            },
        };
        let time_types = match TimeTypes::deduce(flags) {
            Ok(types) => types,
            Err(e) => {
                return Err(e);
            },
        };
        Ok(
            Columns {
                size_format: size_format,
                time_types: time_types,
                inode: flags.inode,
                links: flags.links,
                blocks: flags.blocks,
                group: flags.group,
                git: env.git && flags.git,
            },
        )
    }

    /// Whether it is worth looking for a repository: only if its status
    /// would end up being displayed.
    pub fn should_scan_for_git(&self) -> (scan: bool)
        ensures
            scan == self.git,
    {
        self.git
    }

    /// The columns in the order in which they are displayed. Permissions,
    /// size and user are always there; each of the others only where it is
    /// wanted, and the repository status only for a directory that lies in
    /// a repository.
    pub open spec fn sequence(self, repository: bool) -> Seq<Column> {
        let columns = with(Seq::<Column>::empty(), self.inode, Column::Inode);
        let columns = columns.push(Column::Permissions);
        let columns = with(columns, self.links, Column::HardLinks);
        let columns = columns.push(Column::FileSize(self.size_format));
        let columns = with(columns, self.blocks, Column::Blocks);
        let columns = columns.push(Column::User);
        let columns = with(columns, self.group, Column::Group);
        let columns = with(
            columns,
            self.time_types.modified,
            Column::Timestamp(TimeType::FileModified),
        );
        let columns = with(
            columns,
            self.time_types.created,
            Column::Timestamp(TimeType::FileCreated),
        );
        let columns = with(
            columns,
            self.time_types.accessed,
            Column::Timestamp(TimeType::FileAccessed),
        );
        with(columns, self.git && repository, Column::GitStatus)
    }

    /// The columns to display for the files of a directory, or for files
    /// listed without one.
    pub fn for_dir(&self, dir: Option<&Dir>) -> (columns: Vec<Column>)
        ensures
            columns@ == self.sequence(dir matches Some(d) && d.git_repo),
    {
        let mut columns: Vec<Column> = Vec::new();

        if self.inode {
            columns.push(Column::Inode);
        }

        columns.push(Column::Permissions);

        if self.links {
            columns.push(Column::HardLinks);
        }

        columns.push(Column::FileSize(self.size_format));

        if self.blocks {
            columns.push(Column::Blocks);
        }

        columns.push(Column::User);

        if self.group {
            columns.push(Column::Group);
        }

        if self.time_types.modified {
            columns.push(Column::Timestamp(TimeType::FileModified));
        }

        if self.time_types.created {
            columns.push(Column::Timestamp(TimeType::FileCreated));
        }

        if self.time_types.accessed {
            columns.push(Column::Timestamp(TimeType::FileAccessed));
        }

        if let Some(d) = dir {
            if self.should_scan_for_git() && d.has_git_repo() {
                columns.push(Column::GitStatus);
            }
        }

        columns
    }
}

} // verus!
