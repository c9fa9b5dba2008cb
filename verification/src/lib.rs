//! Command-line option resolution for a directory lister.
//!
//! A flag set is reconciled into one consistent configuration (how to treat
//! directories, how to filter and sort files, which view to render), or
//! rejected with a `Misfire` that names the offending options.

pub mod arguments;
pub mod columns;
pub mod compare;
pub mod dir_action;
pub mod file;
pub mod filter;
pub mod flags;
pub mod laws;
pub mod misfire;
pub mod options;
pub mod order;
pub mod output;
pub mod parser;
pub mod view;
pub mod vocabulary;

pub use columns::{Column, Columns, Dir};
pub use dir_action::{DirAction, RecurseOptions};
pub use file::File;
pub use filter::FileFilter;
pub use flags::{Environment, Flags, FlagsView};
pub use misfire::{Fail, FailView, Misfire, MisfireView};
pub use options::Options;
pub use output::{Colours, Details, Grid, GridDetails, Lines};
pub use view::View;
pub use vocabulary::{SizeFormat, SortField, TimeType, TimeTypes};
