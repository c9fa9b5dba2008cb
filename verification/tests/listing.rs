use std::cmp::Ordering;

use exa::filter::{group_dirs_first, reverse_files};
use exa::{Environment, File, FileFilter, Options, SortField};

fn file(name: &str) -> File {
    let ext = match name.rfind('.') {
        Some(dot) if dot > 0 => Some(name[dot + 1..].to_string()),
        _ => None,
    };
    File {
        name: name.to_string(),
        ext,
        is_dir: false,
        size: 0,
        inode: 0,
        modified: 0,
        accessed: 0,
        created: 0,
    }
}

fn dir(name: &str) -> File {
    File { is_dir: true, ..file(name) }
}

fn sized(name: &str, size: u64) -> File {
    File { size, ..file(name) }
}

fn files(names: &[&str]) -> Vec<File> {
    names.iter().map(|name| file(name)).collect()
}

fn names(files: &[File]) -> Vec<String> {
    files.iter().map(|f| f.name.clone()).collect()
}

fn sorting_by(sort_field: SortField) -> FileFilter {
    FileFilter { list_dirs_first: false, reverse: false, show_invisibles: false, sort_field }
}

#[test]
fn names_sort_in_natural_order() {
    let mut list = files(&["file10", "file2", "file1"]);
    sorting_by(SortField::Name).sort_files(&mut list);
    assert_eq!(names(&list), vec!["file1", "file2", "file10"]);
}

#[test]
fn natural_order_is_not_the_order_of_the_characters() {
    let filter = sorting_by(SortField::Name);
    assert_eq!(filter.compare_files(&file("a10"), &file("a9")), Ordering::Greater);
    assert_eq!(filter.compare_files(&file("a9"), &file("a10")), Ordering::Less);
    assert_eq!(filter.compare_files(&file("rfc822.txt"), &file("rfc2086.txt")), Ordering::Less);
    assert_eq!(filter.compare_files(&file("same"), &file("same")), Ordering::Equal);
    assert!(filter.comes_after(&file("b"), &file("a")));
    assert!(!filter.comes_after(&file("a"), &file("a")));
}

#[test]
fn unsorted_files_stay_where_they_are() {
    let mut list = files(&["c", "a", "b"]);
    sorting_by(SortField::Unsorted).sort_files(&mut list);
    assert_eq!(names(&list), vec!["c", "a", "b"]);
    assert_eq!(
        sorting_by(SortField::Unsorted).compare_files(&file("b"), &file("a")),
        Ordering::Equal
    );
}

#[test]
fn numbers_sort_as_numbers_and_ties_keep_their_order() {
    let mut list =
        vec![sized("c", 20), sized("a", 3), sized("e", 20), sized("b", 100), sized("d", 3)];
    sorting_by(SortField::Size).sort_files(&mut list);
    assert_eq!(names(&list), vec!["a", "d", "c", "e", "b"]);
}

#[test]
fn each_numeric_field_is_read_from_its_own_metadata() {
    let early = File { size: 9, inode: 1, modified: -5, accessed: 7, created: 2, ..file("x") };
    let late = File { size: 1, inode: 9, modified: 5, accessed: 3, created: 2, ..file("x") };
    let compare = |field: SortField| sorting_by(field).compare_files(&early, &late);
    assert_eq!(compare(SortField::Size), Ordering::Greater);
    assert_eq!(compare(SortField::FileInode), Ordering::Less);
    assert_eq!(compare(SortField::ModifiedDate), Ordering::Less);
    assert_eq!(compare(SortField::AccessedDate), Ordering::Greater);
    assert_eq!(compare(SortField::CreatedDate), Ordering::Equal);
    assert_eq!(compare(SortField::Name), Ordering::Equal);
}

#[test]
fn extensions_sort_as_texts_then_names_naturally() {
    let mut list = files(&["b10.txt", "z.rs", "none", "b9.txt", "a.RS", "y.r"]);
    sorting_by(SortField::Extension).sort_files(&mut list);
    assert_eq!(names(&list), vec!["none", "a.RS", "y.r", "z.rs", "b9.txt", "b10.txt"]);
    let filter = sorting_by(SortField::Extension);
    assert_eq!(filter.compare_files(&file("a.b"), &file("a.ab")), Ordering::Greater);
    assert_eq!(filter.compare_files(&file("a.é"), &file("a.z")), Ordering::Greater);
    assert_eq!(filter.compare_files(&file("a.10"), &file("a.9")), Ordering::Less);
}

#[test]
fn reverse_turns_the_whole_order_round() {
    let mut list = vec![sized("c", 20), sized("a", 3), sized("e", 20), sized("b", 100)];
    let filter = FileFilter { reverse: true, ..sorting_by(SortField::Size) };
    filter.sort_files(&mut list);
    assert_eq!(names(&list), vec!["b", "e", "c", "a"]);
}

#[test]
fn directories_come_first_even_when_reversed() {
    let mut list = vec![dir("b"), file("a"), file("c"), dir("d")];
    let filter =
        FileFilter { reverse: true, list_dirs_first: true, ..sorting_by(SortField::Name) };
    filter.sort_files(&mut list);
    assert_eq!(names(&list), vec!["d", "b", "c", "a"]);

    let mut list = vec![dir("b"), file("a"), file("c"), dir("d")];
    let filter = FileFilter { list_dirs_first: true, ..sorting_by(SortField::Name) };
    filter.sort_files(&mut list);
    assert_eq!(names(&list), vec!["b", "d", "a", "c"]);
}

#[test]
fn grouping_keeps_the_order_within_each_group() {
    let mut list = vec![file("f1"), dir("d1"), file("f2"), dir("d2"), dir("d3"), file("f3")];
    group_dirs_first(&mut list);
    assert_eq!(names(&list), vec!["d1", "d2", "d3", "f1", "f2", "f3"]);
    let mut none: Vec<File> = Vec::new();
    group_dirs_first(&mut none);
    assert!(none.is_empty());
}

#[test]
fn reversing_a_list() {
    let mut list = files(&["a", "b", "c"]);
    reverse_files(&mut list);
    assert_eq!(names(&list), vec!["c", "b", "a"]);
}

#[test]
fn sorting_twice_changes_nothing() {
    let filter = FileFilter { list_dirs_first: true, ..sorting_by(SortField::Size) };
    let mut list = vec![
        sized("c", 20),
        File { size: 20, ..dir("k") },
        sized("a", 3),
        File { size: 1, ..dir("j") },
        sized("e", 20),
        File { size: 20, ..dir("i") },
    ];
    filter.sort_files(&mut list);
    let once = list.clone();
    assert_eq!(names(&once), vec!["j", "k", "i", "a", "c", "e"]);
    filter.sort_files(&mut list);
    assert_eq!(list, once);

    let reversed = FileFilter { reverse: true, ..sorting_by(SortField::Name) };
    let mut list = files(&["file10", "file2", "file1"]);
    reversed.sort_files(&mut list);
    let once = list.clone();
    assert_eq!(names(&once), vec!["file10", "file2", "file1"]);
    reversed.sort_files(&mut list);
    assert_eq!(list, once);
}

#[test]
fn reversing_tied_files_turns_them_round_each_time() {
    let filter = FileFilter { reverse: true, ..sorting_by(SortField::Unsorted) };
    let mut list = files(&["a", "b"]);
    filter.sort_files(&mut list);
    assert_eq!(names(&list), vec!["b", "a"]);
    filter.sort_files(&mut list);
    assert_eq!(names(&list), vec!["a", "b"]);
}

#[test]
fn sorting_by_field_alone_ignores_the_other_settings() {
    let filter =
        FileFilter { reverse: true, list_dirs_first: true, ..sorting_by(SortField::Name) };
    let mut list = vec![file("b"), dir("c"), file("a")];
    filter.sort_by_field(&mut list);
    assert_eq!(names(&list), vec!["a", "b", "c"]);
}

#[test]
fn hidden_files_are_removed_unless_asked_for() {
    let mut list = files(&[".git", "src", ".", "a.b", "..", ".hidden.txt", "z"]);
    sorting_by(SortField::Name).filter_files(&mut list);
    assert_eq!(names(&list), vec!["src", "a.b", "z"]);

    let mut list = files(&[".git", "src", "z"]);
    let all = FileFilter { show_invisibles: true, ..sorting_by(SortField::Name) };
    all.filter_files(&mut list);
    assert_eq!(names(&list), vec![".git", "src", "z"]);
}

#[test]
fn dotfiles_and_directories() {
    assert!(file(".profile").is_dotfile());
    assert!(!file("profile.").is_dotfile());
    assert!(!file("").is_dotfile());
    assert!(dir("src").is_directory());
    assert!(!file("src").is_directory());
}

#[test]
fn options_sort_and_filter_with_their_filter() {
    let env = Environment { console_width: None, xattr: false, git: false };
    let args = vec!["--sort=size".to_string(), "--reverse".to_string()];
    let (options, _) = Options::getopts(&args, &env).unwrap();
    let mut list = vec![sized(".x", 5), sized("small", 1), sized("big", 9)];
    options.filter_files(&mut list);
    options.sort_files(&mut list);
    assert_eq!(names(&list), vec!["big", "small"]);
    assert_eq!(FileFilter::default(), sorting_by(SortField::Name));
}
