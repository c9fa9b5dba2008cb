//! The small closed vocabularies: what to sort by, how to format sizes,
//! and which timestamps to show.

use vstd::prelude::*;
use vstd::string::*;
use crate::flags::{same_text, Flags, FlagsView};
use crate::misfire::{outcome, Fail, FailView, Misfire, MisfireView};

verus! {

/// User-supplied field to sort by.
#[derive(PartialEq, Eq, Debug, Copy, Clone)]
pub enum SortField {
    Unsorted,
    Name,
    Extension,
    Size,
    FileInode,
    ModifiedDate,
    AccessedDate,
    CreatedDate,
}

impl Default for SortField {
    fn default() -> (field: SortField)
        ensures
            field == SortField::Name,
    {
        SortField::Name
    }
}

impl SortField {
    /// The field that a sort word names, if it names one.
    pub open spec fn of_word(word: Seq<char>) -> Option<SortField> {
        if word == "name"@ || word == "filename"@ {
            Some(SortField::Name)
        } else if word == "size"@ || word == "filesize"@ {
            Some(SortField::Size)
        } else if word == "ext"@ || word == "extension"@ {
            Some(SortField::Extension)
        } else if word == "mod"@ || word == "modified"@ {
            Some(SortField::ModifiedDate)
        } else if word == "acc"@ || word == "accessed"@ {
            Some(SortField::AccessedDate)
        } else if word == "cr"@ || word == "created"@ {
            Some(SortField::CreatedDate)
        } else if word == "none"@ {
            Some(SortField::Unsorted)
        } else if word == "inode"@ {
            Some(SortField::FileInode)
        } else {
            None
        }
    }

    /// The misfire for a sort word that names no field.
    pub open spec fn unrecognized(word: Seq<char>) -> MisfireView {
        MisfireView::InvalidOptions(FailView::UnrecognizedOption("--sort "@ + word))
    }

    /// What `from_word` returns for a word.
    pub open spec fn resolved(word: Seq<char>) -> Result<SortField, MisfireView> {
        match SortField::of_word(word) {
            Some(field) => Ok(field),
            None => Err(SortField::unrecognized(word)),
        }
    }

    /// What a flag set sorts by: the field its sort word names, or `Name`
    /// when it gives no sort word.
    pub open spec fn deduced(flags: FlagsView) -> Result<SortField, MisfireView> {
        match flags.sort {
            Some(word) => SortField::resolved(word),
            None => Ok(SortField::Name),
        }
    }

    /// Find which field to use based on a user-supplied word.
    pub fn from_word(word: &str) -> (r: Result<SortField, Misfire>)
        ensures
            outcome(r) == SortField::resolved(word@),
    {
        if same_text(word, "name") || same_text(word, "filename") {
            Ok(SortField::Name)
        } else if same_text(word, "size") || same_text(word, "filesize") {
            Ok(SortField::Size)
        } else if same_text(word, "ext") || same_text(word, "extension") {
            Ok(SortField::Extension)
        } else if same_text(word, "mod") || same_text(word, "modified") {
            Ok(SortField::ModifiedDate)
        } else if same_text(word, "acc") || same_text(word, "accessed") {
            Ok(SortField::AccessedDate)
        } else if same_text(word, "cr") || same_text(word, "created") {
            Ok(SortField::CreatedDate)
        } else if same_text(word, "none") {
            Ok(SortField::Unsorted)
        } else if same_text(word, "inode") {
            Ok(SortField::FileInode)
        } else {
            Err(SortField::none(word))
        }
    }

    /// How to display an error when the word didn't match with anything.
    pub fn none(field: &str) -> (misfire: Misfire)
        ensures
            misfire@ == SortField::unrecognized(field@),
    {
        Misfire::InvalidOptions(Fail::UnrecognizedOption(String::from_str("--sort ").concat(field)))
    }

    /// The field a flag set asks to sort by.
    pub fn deduce(flags: &Flags) -> (r: Result<SortField, Misfire>)
        ensures
            outcome(r) == SortField::deduced(flags@),
            flags@.sort is None ==> r == Ok::<SortField, Misfire>(SortField::Name),
    {
        match &flags.sort {
            Some(word) => SortField::from_word(word.as_str()),
            None => Ok(SortField::default()),
        }
    }
}

/// How file sizes are written.
#[derive(PartialEq, Eq, Debug, Copy, Clone)]
pub enum SizeFormat {
    DecimalBytes,
    BinaryBytes,
    JustBytes,
}

impl Default for SizeFormat {
    fn default() -> (format: SizeFormat)
        ensures
            format == SizeFormat::DecimalBytes,
    {
        SizeFormat::DecimalBytes
    }
}

impl SizeFormat {
    /// The size format of a flag set. `binary` and `bytes` exclude each
    /// other, whatever else is given.
    pub open spec fn deduced(flags: FlagsView) -> Result<SizeFormat, MisfireView> {
        if flags.binary && flags.bytes {
            Err(MisfireView::Conflict("binary"@, "bytes"@))
        } else if flags.binary {
            Ok(SizeFormat::BinaryBytes)
        } else if flags.bytes {
            Ok(SizeFormat::JustBytes)
        } else {
            Ok(SizeFormat::DecimalBytes)
        }
    }

    pub fn deduce(flags: &Flags) -> (r: Result<SizeFormat, Misfire>)
        ensures
            outcome(r) == SizeFormat::deduced(flags@),
    {
        match (flags.binary, flags.bytes) {
            (true, true) => Err(Misfire::Conflict("binary", "bytes")),
            (true, false) => Ok(SizeFormat::BinaryBytes),
            (false, true) => Ok(SizeFormat::JustBytes),
            (false, false) => Ok(SizeFormat::DecimalBytes),
        }
    }
}

/// One of a file's three timestamps.
#[derive(PartialEq, Eq, Debug, Copy, Clone)]
pub enum TimeType {
    FileAccessed,
    FileModified,
    FileCreated,
}

impl TimeType {
    /// The heading of this timestamp's column.
    pub fn header(&self) -> (text: &'static str)
        ensures
            text@ == match *self {
                TimeType::FileAccessed => "Date Accessed"@,
                TimeType::FileModified => "Date Modified"@,
                TimeType::FileCreated => "Date Created"@,
            },
    {
        match *self {
            TimeType::FileAccessed => "Date Accessed",
            TimeType::FileModified => "Date Modified",
            TimeType::FileCreated => "Date Created",
        }
    }
}

/// Which of a file's timestamps to show.
#[derive(PartialEq, Eq, Debug, Copy, Clone)]
pub struct TimeTypes {
    pub accessed: bool,
    pub modified: bool,
    pub created: bool,
}

impl Default for TimeTypes {
    fn default() -> (types: TimeTypes)
        ensures
            types == (TimeTypes { accessed: false, modified: true, created: false }),
    {
        TimeTypes { accessed: false, modified: true, created: false }
    }
}

impl TimeTypes {
    /// The timestamp that a time word selects, if it names one.
    pub open spec fn of_word(word: Seq<char>) -> Option<TimeTypes> {
        if word == "mod"@ || word == "modified"@ {
            Some(TimeTypes { accessed: false, modified: true, created: false })
        } else if word == "acc"@ || word == "accessed"@ {
            Some(TimeTypes { accessed: true, modified: false, created: false })
        } else if word == "cr"@ || word == "created"@ {
            Some(TimeTypes { accessed: false, modified: false, created: true })
        } else {
            None
        }
    }

    /// The misfire for a time word that names no timestamp.
    pub open spec fn unrecognized(word: Seq<char>) -> MisfireView {
        MisfireView::InvalidOptions(FailView::UnrecognizedOption("--time "@ + word))
    }

    /// The timestamps of a flag set. A time word makes each of the three
    /// discrete flags useless, `modified` blamed first, then `created`, then
    /// `accessed`. Without a word the discrete flags are taken as given, and
    /// with nothing given at all the modification time is shown.
    pub open spec fn deduced(flags: FlagsView) -> Result<TimeTypes, MisfireView> {
        match flags.time {
            Some(word) => {
                if flags.modified {
                    Err(MisfireView::Useless("modified"@, true, "time"@))
                } else if flags.created {
                    Err(MisfireView::Useless("created"@, true, "time"@))
                } else if flags.accessed {
                    Err(MisfireView::Useless("accessed"@, true, "time"@))
                } else {
                    match TimeTypes::of_word(word) {
                        Some(types) => Ok(types),
                        None => Err(TimeTypes::unrecognized(word)),
                    }
                }
            },
            None => {
                if flags.modified || flags.created || flags.accessed {
                    Ok(
                        TimeTypes {
                            accessed: flags.accessed,
                            modified: flags.modified,
                            created: flags.created,
                        },
                    )
                } else {
                    Ok(TimeTypes { accessed: false, modified: true, created: false })
                }
            },
        }
    }

    /// Find which timestamps to show based on the time word and the three
    /// discrete flags.
    pub fn deduce(flags: &Flags) -> (r: Result<TimeTypes, Misfire>)
        ensures
            outcome(r) == TimeTypes::deduced(flags@),
    {
        let modified = flags.modified;
        let created = flags.created;
        let accessed = flags.accessed;

        match &flags.time {
            Some(text) => {
                if modified {
                    return Err(Misfire::Useless("modified", true, "time"));
                } else if created {
                    return Err(Misfire::Useless("created", true, "time"));
                } else if accessed {
                    return Err(Misfire::Useless("accessed", true, "time"));
                }
                let word = text.as_str();
                if same_text(word, "mod") || same_text(word, "modified") {
                    Ok(TimeTypes { accessed: false, modified: true, created: false })
                } else if same_text(word, "acc") || same_text(word, "accessed") {
                    Ok(TimeTypes { accessed: true, modified: false, created: false })
                } else if same_text(word, "cr") || same_text(word, "created") {
                    Ok(TimeTypes { accessed: false, modified: false, created: true })
                } else {
                    Err(TimeTypes::none(word))
                }
            },
            None => {
                if modified || created || accessed {
                    Ok(TimeTypes { accessed: accessed, modified: modified, created: created })
                } else {
                    Ok(TimeTypes::default())
                }
            },
        }
    }

    /// How to display an error when the word didn't match with anything.
    pub fn none(field: &str) -> (misfire: Misfire)
        ensures
            misfire@ == TimeTypes::unrecognized(field@),
    {
        Misfire::InvalidOptions(Fail::UnrecognizedOption(String::from_str("--time ").concat(field)))
    }
}

} // verus!
