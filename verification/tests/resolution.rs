use exa::{
    Colours, Column, Columns, Details, Dir, DirAction, Environment, Fail, FileFilter, Flags, Grid,
    GridDetails, Lines, Misfire, Options, RecurseOptions, SizeFormat, SortField, TimeType,
    TimeTypes, View,
};

fn on_terminal() -> Environment {
    Environment { console_width: Some(120), xattr: true, git: true }
}

fn redirected() -> Environment {
    Environment { console_width: None, xattr: false, git: false }
}

fn args(words: &[&str]) -> Vec<String> {
    let mut list = Vec::new();
    for word in words {
        list.push(word.to_string());
    }
    list
}

fn resolve(words: &[&str], env: &Environment) -> Result<(Options, Vec<String>), Misfire> {
    Options::getopts(&args(words), env)
}

fn by_name() -> FileFilter {
    FileFilter {
        list_dirs_first: false,
        reverse: false,
        show_invisibles: false,
        sort_field: SortField::Name,
    }
}

#[test]
fn nothing_given_is_a_grid_sorted_by_name() {
    let (options, paths) = resolve(&[], &on_terminal()).unwrap();
    assert_eq!(paths, vec![".".to_string()]);
    assert_eq!(options.filter, by_name());
    assert_eq!(options.dir_action, DirAction::List);
    assert_eq!(
        options.view,
        View::Grid(Grid { across: false, console_width: 120, colours: Colours::Colourful })
    );
}

#[test]
fn no_sort_flag_sorts_by_name() {
    let flags = Flags { reverse: true, all: true, ..Flags::default() };
    assert_eq!(SortField::deduce(&flags), Ok(SortField::Name));
    let (options, _) = Options::deduce(&flags, Vec::new(), &redirected()).unwrap();
    assert_eq!(options.filter.sort_field, SortField::Name);
    assert!(options.filter.reverse);
    assert!(options.filter.show_invisibles);
    assert!(!options.filter.list_dirs_first);
}

#[test]
fn every_sort_word_names_its_field() {
    assert_eq!(SortField::from_word("name"), Ok(SortField::Name));
    assert_eq!(SortField::from_word("filename"), Ok(SortField::Name));
    assert_eq!(SortField::from_word("size"), Ok(SortField::Size));
    assert_eq!(SortField::from_word("filesize"), Ok(SortField::Size));
    assert_eq!(SortField::from_word("ext"), Ok(SortField::Extension));
    assert_eq!(SortField::from_word("extension"), Ok(SortField::Extension));
    assert_eq!(SortField::from_word("mod"), Ok(SortField::ModifiedDate));
    assert_eq!(SortField::from_word("modified"), Ok(SortField::ModifiedDate));
    assert_eq!(SortField::from_word("acc"), Ok(SortField::AccessedDate));
    assert_eq!(SortField::from_word("accessed"), Ok(SortField::AccessedDate));
    assert_eq!(SortField::from_word("cr"), Ok(SortField::CreatedDate));
    assert_eq!(SortField::from_word("created"), Ok(SortField::CreatedDate));
    assert_eq!(SortField::from_word("none"), Ok(SortField::Unsorted));
    assert_eq!(SortField::from_word("inode"), Ok(SortField::FileInode));
}

#[test]
fn unknown_sort_word_is_an_invalid_option() {
    let expected =
        Misfire::InvalidOptions(Fail::UnrecognizedOption("--sort colour".to_string()));
    let same = Misfire::InvalidOptions(Fail::UnrecognizedOption("--sort colour".to_string()));
    assert_eq!(SortField::from_word("colour"), Err(same));
    assert_eq!(resolve(&["--sort", "colour"], &on_terminal()).unwrap_err(), expected);
    assert_eq!(SortField::from_word("Name").is_err(), true);
    assert_eq!(SortField::from_word("").is_err(), true);
}

#[test]
fn sort_word_from_the_command_line() {
    let (options, _) = resolve(&["--sort=size", "-r"], &on_terminal()).unwrap();
    assert_eq!(options.filter.sort_field, SortField::Size);
    assert!(options.filter.reverse);
    let (options, _) = resolve(&["-s", "ext", "--group-directories-first", "-a"], &on_terminal())
        .unwrap();
    assert_eq!(options.filter.sort_field, SortField::Extension);
    assert!(options.filter.list_dirs_first);
    assert!(options.filter.show_invisibles);
}

#[test]
fn size_format_of_each_combination() {
    let neither = Flags::default();
    let binary = Flags { binary: true, ..Flags::default() };
    let bytes = Flags { bytes: true, ..Flags::default() };
    let both = Flags { binary: true, bytes: true, oneline: true, across: true, ..Flags::default() };
    assert_eq!(SizeFormat::deduce(&neither), Ok(SizeFormat::DecimalBytes));
    assert_eq!(SizeFormat::deduce(&binary), Ok(SizeFormat::BinaryBytes));
    assert_eq!(SizeFormat::deduce(&bytes), Ok(SizeFormat::JustBytes));
    assert_eq!(SizeFormat::deduce(&both), Err(Misfire::Conflict("binary", "bytes")));
    assert_eq!(
        Columns::deduce(&both, &on_terminal()),
        Err(Misfire::Conflict("binary", "bytes"))
    );
}

#[test]
fn time_word_with_created_is_useless() {
    let opts = resolve(&["--long", "--time", "mod", "--created"], &on_terminal());
    assert_eq!(opts.unwrap_err(), Misfire::Useless("created", true, "time"));
}

#[test]
fn time_word_blames_modified_before_created_before_accessed() {
    let all = Flags {
        time: Some("acc".to_string()),
        modified: true,
        created: true,
        accessed: true,
        ..Flags::default()
    };
    assert_eq!(TimeTypes::deduce(&all), Err(Misfire::Useless("modified", true, "time")));
    let two = Flags { modified: false, ..all.clone() };
    assert_eq!(TimeTypes::deduce(&two), Err(Misfire::Useless("created", true, "time")));
    let one = Flags { created: false, ..two.clone() };
    assert_eq!(TimeTypes::deduce(&one), Err(Misfire::Useless("accessed", true, "time")));
}

#[test]
fn time_words_select_one_timestamp() {
    let with = |word: &str| Flags { time: Some(word.to_string()), ..Flags::default() };
    let modified = TimeTypes { accessed: false, modified: true, created: false };
    let accessed = TimeTypes { accessed: true, modified: false, created: false };
    let created = TimeTypes { accessed: false, modified: false, created: true };
    assert_eq!(TimeTypes::deduce(&with("mod")), Ok(modified));
    assert_eq!(TimeTypes::deduce(&with("modified")), Ok(modified));
    assert_eq!(TimeTypes::deduce(&with("acc")), Ok(accessed));
    assert_eq!(TimeTypes::deduce(&with("accessed")), Ok(accessed));
    assert_eq!(TimeTypes::deduce(&with("cr")), Ok(created));
    assert_eq!(TimeTypes::deduce(&with("created")), Ok(created));
    assert_eq!(
        TimeTypes::deduce(&with("yesterday")),
        Err(Misfire::InvalidOptions(Fail::UnrecognizedOption("--time yesterday".to_string())))
    );
}

#[test]
fn discrete_time_flags_are_taken_verbatim() {
    assert_eq!(
        TimeTypes::deduce(&Flags::default()),
        Ok(TimeTypes { accessed: false, modified: true, created: false })
    );
    let two = Flags { accessed: true, created: true, ..Flags::default() };
    assert_eq!(
        TimeTypes::deduce(&two),
        Ok(TimeTypes { accessed: true, modified: false, created: true })
    );
}

#[test]
fn time_type_headers() {
    assert_eq!(TimeType::FileAccessed.header(), "Date Accessed");
    assert_eq!(TimeType::FileModified.header(), "Date Modified");
    assert_eq!(TimeType::FileCreated.header(), "Date Created");
}

#[test]
fn column_order_with_everything_but_git() {
    let (options, _) = resolve(
        &["--inode", "--long", "--links", "--blocks", "--group", "--time=modified"],
        &on_terminal(),
    ).unwrap();
    let columns = match options.view {
        View::Details(Details { columns: Some(columns), .. }) => columns,
        other => panic!("not a detail view: {:?}", other),
    };
    assert_eq!(
        columns.for_dir(None),
        vec![
            Column::Inode,
            Column::Permissions,
            Column::HardLinks,
            Column::FileSize(SizeFormat::DecimalBytes),
            Column::Blocks,
            Column::User,
            Column::Group,
            Column::Timestamp(TimeType::FileModified),
        ]
    );
}

#[test]
fn unconditional_columns() {
    let columns = Columns {
        size_format: SizeFormat::JustBytes,
        time_types: TimeTypes { accessed: false, modified: false, created: false },
        inode: false,
        links: false,
        blocks: false,
        group: false,
        git: false,
    };
    assert_eq!(
        columns.for_dir(Some(&Dir { git_repo: true })),
        vec![Column::Permissions, Column::FileSize(SizeFormat::JustBytes), Column::User]
    );
}

#[test]
fn timestamps_come_modified_created_accessed() {
    let flags = Flags { accessed: true, created: true, modified: true, ..Flags::default() };
    let columns = Columns::deduce(&flags, &on_terminal()).unwrap();
    assert_eq!(
        columns.for_dir(None),
        vec![
            Column::Permissions,
            Column::FileSize(SizeFormat::DecimalBytes),
            Column::User,
            Column::Timestamp(TimeType::FileModified),
            Column::Timestamp(TimeType::FileCreated),
            Column::Timestamp(TimeType::FileAccessed),
        ]
    );
}

#[test]
fn git_column_needs_the_flag_the_environment_and_a_repository() {
    let flags = Flags { git: true, ..Flags::default() };
    let wanted = Columns::deduce(&flags, &on_terminal()).unwrap();
    assert!(wanted.should_scan_for_git());
    let inside = Dir { git_repo: true };
    let outside = Dir { git_repo: false };
    assert!(inside.has_git_repo());
    assert_eq!(wanted.for_dir(Some(&inside)).last(), Some(&Column::GitStatus));
    assert_eq!(wanted.for_dir(Some(&inside)).len(), 5);
    assert_eq!(
        wanted.for_dir(Some(&outside)).last(),
        Some(&Column::Timestamp(TimeType::FileModified))
    );
    assert_eq!(wanted.for_dir(None).len(), 4);

    let unable = Columns::deduce(&flags, &redirected()).unwrap();
    assert!(!unable.should_scan_for_git());
    assert_eq!(unable.for_dir(Some(&inside)).len(), 4);
    assert_eq!(Columns::default().for_dir(Some(&inside)).len(), 4);
}

#[test]
fn dir_action_table() {
    let with = |recurse: bool, list_dirs: bool, tree: bool| {
        DirAction::deduce(&Flags { recurse, list_dirs, tree, ..Flags::default() })
    };
    let unbounded = |tree: bool| DirAction::Recurse(RecurseOptions { tree, max_depth: None });
    assert_eq!(with(true, true, false), Err(Misfire::Conflict("recurse", "list-dirs")));
    assert_eq!(with(true, true, true), Err(Misfire::Conflict("recurse", "list-dirs")));
    assert_eq!(with(false, true, true), Err(Misfire::Conflict("tree", "list-dirs")));
    assert_eq!(with(true, false, false), Ok(unbounded(false)));
    assert_eq!(with(true, false, true), Ok(unbounded(true)));
    assert_eq!(with(false, false, true), Ok(unbounded(true)));
    assert_eq!(with(false, true, false), Ok(DirAction::AsFile));
    assert_eq!(with(false, false, false), Ok(DirAction::List));
}

#[test]
fn recurse_with_list_dirs_conflicts_on_the_command_line() {
    let opts =
        resolve(&["--recurse", "--list-dirs", "--long", "--binary", "--bytes"], &on_terminal());
    assert_eq!(opts.unwrap_err(), Misfire::Conflict("recurse", "list-dirs"));
    let opts = resolve(&["-T", "-d"], &on_terminal());
    assert_eq!(opts.unwrap_err(), Misfire::Conflict("tree", "list-dirs"));
}

#[test]
fn level_is_parsed_as_a_depth() {
    let (options, _) = resolve(&["--recurse", "--level", "5"], &on_terminal()).unwrap();
    assert_eq!(
        options.dir_action,
        DirAction::Recurse(RecurseOptions { tree: false, max_depth: Some(5) })
    );
    let (options, _) = resolve(&["--tree", "-L", "+12"], &on_terminal()).unwrap();
    assert_eq!(
        options.dir_action,
        DirAction::Recurse(RecurseOptions { tree: true, max_depth: Some(12) })
    );
    let (options, _) = resolve(&["--tree", "--level=007"], &on_terminal()).unwrap();
    assert_eq!(options.dir_action.recurse_options().unwrap().max_depth, Some(7));
    let (options, _) = resolve(&["--tree", "--level=0"], &on_terminal()).unwrap();
    assert_eq!(options.dir_action.recurse_options().unwrap().max_depth, Some(0));
}

#[test]
fn level_that_is_no_number_fails_to_parse() {
    for word in ["five", "", "+", "-1", "1.5", " 3", "3 ", "٣", "99999999999999999999999999"] {
        let flags = Flags { recurse: true, level: Some(word.to_string()), ..Flags::default() };
        match DirAction::deduce(&flags) {
            Err(Misfire::FailedParse(_)) => {},
            other => panic!("{:?} gave {:?}", word, other),
        }
    }
    let largest = usize::MAX.to_string();
    let flags = Flags { recurse: true, level: Some(largest), ..Flags::default() };
    assert_eq!(
        RecurseOptions::deduce(&flags, true),
        Ok(RecurseOptions { tree: true, max_depth: Some(usize::MAX) })
    );
}

#[test]
fn level_is_ignored_where_nothing_recurses() {
    let flags = Flags { list_dirs: true, level: Some("x".to_string()), ..Flags::default() };
    assert_eq!(DirAction::deduce(&flags), Ok(DirAction::AsFile));
}

#[test]
fn too_deep_from_the_bound_on() {
    let bounded = RecurseOptions { tree: false, max_depth: Some(2) };
    assert!(!bounded.is_too_deep(0));
    assert!(!bounded.is_too_deep(1));
    assert!(bounded.is_too_deep(2));
    assert!(bounded.is_too_deep(3));
    let at_root = RecurseOptions { tree: true, max_depth: Some(0) };
    assert!(at_root.is_too_deep(0));
    let unbounded = RecurseOptions { tree: true, max_depth: None };
    assert!(!unbounded.is_too_deep(usize::MAX));
}

#[test]
fn dirs_as_files() {
    assert!(DirAction::AsFile.treat_dirs_as_files());
    assert!(!DirAction::List.treat_dirs_as_files());
    let tree = DirAction::Recurse(RecurseOptions { tree: true, max_depth: None });
    assert!(tree.treat_dirs_as_files());
    assert!(!DirAction::Recurse(RecurseOptions { tree: false, max_depth: Some(1) })
        .treat_dirs_as_files());
    assert_eq!(DirAction::List.recurse_options(), None);
    assert_eq!(DirAction::AsFile.recurse_options(), None);
}

#[test]
fn long_view_is_details_with_columns() {
    let (options, _) = resolve(&["-l", "-h", "-@", "-R"], &on_terminal()).unwrap();
    let recurse = RecurseOptions { tree: false, max_depth: None };
    assert_eq!(
        options.view,
        View::Details(Details {
            columns: Some(Columns::default()),
            header: true,
            recurse: Some(recurse),
            filter: by_name(),
            xattr: true,
            colours: Colours::Colourful,
        })
    );
    assert!(!options.should_scan_for_git());
}

#[test]
fn long_view_without_terminal_is_plain() {
    let flags = Flags { long: true, extended: true, ..Flags::default() };
    let view = View::deduce(&flags, by_name(), DirAction::List, &redirected()).unwrap();
    assert_eq!(
        view,
        View::Details(Details {
            columns: Some(Columns::default()),
            header: false,
            recurse: None,
            filter: by_name(),
            xattr: false,
            colours: Colours::Plain,
        })
    );
}

#[test]
fn long_with_grid_combines_both() {
    let (options, _) = resolve(&["--long", "--grid", "--across", "--git"], &on_terminal()).unwrap();
    let columns = Columns { git: true, ..Columns::default() };
    assert_eq!(
        options.view,
        View::GridDetails(GridDetails {
            grid: Grid { across: true, console_width: 120, colours: Colours::Colourful },
            details: Details {
                columns: Some(columns),
                header: false,
                recurse: None,
                filter: by_name(),
                xattr: false,
                colours: Colours::Colourful,
            },
        })
    );
    assert!(options.should_scan_for_git());
}

#[test]
fn long_with_grid_but_no_terminal_is_lines() {
    let flags = Flags { long: true, grid: true, ..Flags::default() };
    let view = View::deduce(&flags, by_name(), DirAction::List, &redirected()).unwrap();
    assert_eq!(view, View::Lines(Lines { colours: Colours::Plain }));
}

#[test]
fn long_with_grid_and_tree_is_the_bare_tree() {
    let (options, _) = resolve(&["--long", "--grid", "--tree"], &on_terminal()).unwrap();
    let recurse = RecurseOptions { tree: true, max_depth: None };
    assert_eq!(
        options.view,
        View::Details(Details {
            columns: None,
            header: false,
            recurse: Some(recurse),
            filter: by_name(),
            xattr: false,
            colours: Colours::Colourful,
        })
    );
    assert!(!options.should_scan_for_git());
}

#[test]
fn long_rejects_oneline() {
    let opts = resolve(&["--long", "--oneline"], &on_terminal());
    assert_eq!(opts.unwrap_err(), Misfire::Useless("oneline", true, "long"));
    let opts = resolve(&["--long", "--oneline", "--across"], &on_terminal());
    assert_eq!(opts.unwrap_err(), Misfire::Useless("across", true, "long"));
    let opts = resolve(&["--long", "--oneline", "--across", "--grid"], &on_terminal());
    assert_eq!(opts.unwrap_err(), Misfire::Useless("oneline", true, "long"));
}

#[test]
fn long_checks_its_flags_before_its_columns() {
    let opts = resolve(&["--long", "--across", "--binary", "--bytes"], &on_terminal());
    assert_eq!(opts.unwrap_err(), Misfire::Useless("across", true, "long"));
    let opts = resolve(&["--long", "--binary", "--bytes", "--time=mod", "-m"], &on_terminal());
    assert_eq!(opts.unwrap_err(), Misfire::Conflict("binary", "bytes"));
}

#[test]
fn options_that_need_long_are_blamed_in_order() {
    let first = |words: &[&str]| resolve(words, &on_terminal()).unwrap_err();
    assert_eq!(
        first(&["--group", "--time=mod", "--blocks", "--header", "--links", "--inode", "--bytes"]),
        Misfire::Useless("bytes", false, "long")
    );
    assert_eq!(
        first(&["--group", "--time=mod", "--blocks", "--header", "--links", "--inode"]),
        Misfire::Useless("inode", false, "long")
    );
    assert_eq!(
        first(&["--group", "--time=mod", "--blocks", "--header", "--links"]),
        Misfire::Useless("links", false, "long")
    );
    assert_eq!(
        first(&["--group", "--time=mod", "--blocks", "--header"]),
        Misfire::Useless("header", false, "long")
    );
    assert_eq!(
        first(&["--group", "--time=mod", "--blocks"]),
        Misfire::Useless("blocks", false, "long")
    );
    assert_eq!(first(&["--group", "--time=mod"]), Misfire::Useless("time", false, "long"));
    assert_eq!(
        first(&["--git", "--level=2", "--extended", "--group"]),
        Misfire::Useless("group", false, "long")
    );
    assert_eq!(
        first(&["--git", "--level=2", "--extended"]),
        Misfire::Useless("git", false, "long")
    );
    assert_eq!(
        first(&["--level=2", "--extended"]),
        Misfire::Useless2("level", "recurse", "tree")
    );
    assert_eq!(first(&["--extended"]), Misfire::Useless("extended", false, "long"));
}

#[test]
fn level_five_needs_recurse_or_tree() {
    let opts = resolve(&["--level", "5"], &on_terminal());
    assert_eq!(opts.unwrap_err(), Misfire::Useless2("level", "recurse", "tree"));
    assert!(resolve(&["--level", "5", "--recurse"], &on_terminal()).is_ok());
    assert!(resolve(&["--level", "5", "--tree"], &on_terminal()).is_ok());
}

#[test]
fn misuse_scan_alone() {
    let env = on_terminal();
    assert_eq!(View::long_options_scan(&Flags::default(), &env), Ok(()));
    let flags = Flags { git: true, extended: true, ..Flags::default() };
    assert_eq!(View::long_options_scan(&flags, &redirected()), Ok(()));
    assert_eq!(
        View::long_options_scan(&flags, &env),
        Err(Misfire::Useless("git", false, "long"))
    );
    let flags = Flags { binary: true, ..Flags::default() };
    assert_eq!(
        View::long_options_scan(&flags, &env),
        Err(Misfire::Useless("binary", false, "long"))
    );
}

#[test]
fn base_view_rules() {
    let env = on_terminal();
    let tree = DirAction::Recurse(RecurseOptions { tree: true, max_depth: Some(3) });
    let oneline = Flags { oneline: true, ..Flags::default() };
    assert_eq!(
        View::other_options_scan(&oneline, by_name(), DirAction::List, &env),
        Ok(View::Lines(Lines { colours: Colours::Colourful }))
    );
    let both = Flags { oneline: true, across: true, tree: true, ..Flags::default() };
    assert_eq!(
        View::other_options_scan(&both, by_name(), tree, &env),
        Err(Misfire::Useless("across", true, "oneline"))
    );
    assert_eq!(
        View::other_options_scan(&both, by_name(), tree, &redirected()),
        Ok(View::Lines(Lines { colours: Colours::Plain }))
    );
    let in_tree = Flags { tree: true, across: true, ..Flags::default() };
    assert_eq!(
        View::other_options_scan(&in_tree, by_name(), tree, &env),
        Ok(View::Details(Details {
            columns: None,
            header: false,
            recurse: Some(RecurseOptions { tree: true, max_depth: Some(3) }),
            filter: by_name(),
            xattr: false,
            colours: Colours::Colourful,
        }))
    );
    let across = Flags { across: true, ..Flags::default() };
    assert_eq!(
        View::other_options_scan(&across, by_name(), DirAction::List, &env),
        Ok(View::Grid(Grid { across: true, console_width: 120, colours: Colours::Colourful }))
    );
}

#[test]
fn long_details_alone() {
    let flags = Flags { long: true, across: true, grid: true, header: true, ..Flags::default() };
    let details = View::long(&flags, by_name(), DirAction::AsFile, &on_terminal()).unwrap();
    assert_eq!(details.columns, Some(Columns::default()));
    assert!(details.header);
    assert_eq!(details.recurse, None);
    assert_eq!(details.colours, Colours::colourful());
    let details = View::long(&flags, by_name(), DirAction::AsFile, &redirected()).unwrap();
    assert_eq!(details.colours, Colours::plain());
}

#[test]
fn redirected_output_is_plain_lines() {
    let (options, _) = resolve(&["--across"], &redirected()).unwrap();
    assert_eq!(options.view, View::Lines(Lines { colours: Colours::Plain }));
    let (options, _) = resolve(&["--oneline", "--across"], &redirected()).unwrap();
    assert_eq!(options.view, View::Lines(Lines { colours: Colours::Plain }));
}

#[test]
fn options_the_environment_lacks_are_not_recognised() {
    let opts = resolve(&["--git"], &redirected());
    assert_eq!(
        opts.unwrap_err(),
        Misfire::InvalidOptions(Fail::UnrecognizedOption("git".to_string()))
    );
    let opts = resolve(&["-@"], &redirected());
    assert_eq!(
        opts.unwrap_err(),
        Misfire::InvalidOptions(Fail::UnrecognizedOption("@".to_string()))
    );
}

#[test]
fn grammar_failures() {
    let env = on_terminal();
    assert_eq!(
        resolve(&["--colour"], &env).unwrap_err(),
        Misfire::InvalidOptions(Fail::UnrecognizedOption("colour".to_string()))
    );
    assert_eq!(
        resolve(&["--level"], &env).unwrap_err(),
        Misfire::InvalidOptions(Fail::ArgumentMissing("level".to_string()))
    );
    assert_eq!(
        resolve(&["--long", "-l"], &env).unwrap_err(),
        Misfire::InvalidOptions(Fail::OptionDuplicated("long".to_string()))
    );
    assert_eq!(
        resolve(&["--long=yes"], &env).unwrap_err(),
        Misfire::InvalidOptions(Fail::UnexpectedArgument("long".to_string()))
    );
    assert_eq!(
        resolve(&["--help", "--colour"], &env).unwrap_err(),
        Misfire::InvalidOptions(Fail::UnrecognizedOption("colour".to_string()))
    );
}

#[test]
fn help_wins_over_everything_the_grammar_accepts() {
    let env = on_terminal();
    let text = match resolve(&["--binary", "--bytes", "-?", "--version", "--sort=x"], &env) {
        Err(Misfire::Help(text)) => text,
        other => panic!("no help: {:?}", other),
    };
    assert!(!text.is_empty());
    assert!(text.starts_with("Usage:\n  exa [options] [files...]\n\nOptions:\n"));
    assert!(text.contains("--group-directories-first"));
    assert!(text.contains("-L, --level DEPTH"));
    assert!(text.contains("--git"));
    assert!(text.contains("-@, --extended"));
    let plain = match resolve(&["--help"], &redirected()) {
        Err(Misfire::Help(text)) => text,
        other => panic!("no help: {:?}", other),
    };
    assert!(!plain.contains("--git"));
    assert!(!plain.contains("--extended"));
}

#[test]
fn version_wins_over_resolution() {
    let opts = resolve(&["--version", "--binary", "--sort=x"], &on_terminal());
    assert_eq!(opts.unwrap_err(), Misfire::Version);
}

#[test]
fn free_arguments_keep_their_order() {
    let (_, paths) = resolve(&["b", "--long", "a", "--", "--grid", "c"], &on_terminal()).unwrap();
    assert_eq!(paths, args(&["b", "a", "--grid", "c"]));
    let (_, paths) = Options::deduce(&Flags::default(), args(&["x"]), &redirected()).unwrap();
    assert_eq!(paths, args(&["x"]));
}

#[test]
fn short_options_cluster() {
    let (options, _) = resolve(&["-lhiHSg", "-tacc"], &on_terminal()).unwrap();
    let columns = match options.view {
        View::Details(Details { columns: Some(columns), header: true, .. }) => columns,
        other => panic!("unexpected view: {:?}", other),
    };
    assert_eq!(
        columns,
        Columns {
            size_format: SizeFormat::DecimalBytes,
            time_types: TimeTypes { accessed: true, modified: false, created: false },
            inode: true,
            links: true,
            blocks: true,
            group: true,
            git: false,
        }
    );
}

#[test]
fn error_codes() {
    assert_eq!(Misfire::Help("usage".to_string()).error_code(), 2);
    assert_eq!(Misfire::Help(String::new()).error_code(), 2);
    assert_eq!(Misfire::Version.error_code(), 3);
    assert_eq!(Misfire::Conflict("a", "b").error_code(), 3);
    assert_eq!(Misfire::Useless("a", true, "b").error_code(), 3);
    assert_eq!(Misfire::Useless2("a", "b", "c").error_code(), 3);
    assert_eq!(
        Misfire::InvalidOptions(Fail::OptionMissing("x".to_string())).error_code(),
        3
    );
    let failed = resolve(&["-R", "-L", "x"], &on_terminal()).unwrap_err();
    assert_eq!(failed.error_code(), 3);
}

#[test]
fn messages() {
    assert_eq!(Misfire::Help("the help".to_string()).message(), "the help");
    assert_eq!(Misfire::Version.message(), "exa 0.3.0");
    assert_eq!(
        Misfire::Conflict("binary", "bytes").message(),
        "Option --binary conflicts with option bytes."
    );
    assert_eq!(
        Misfire::Useless("binary", false, "long").message(),
        "Option --binary is useless without option --long."
    );
    assert_eq!(
        Misfire::Useless("created", true, "time").message(),
        "Option --created is useless given option --time."
    );
    assert_eq!(
        Misfire::Useless2("level", "recurse", "tree").message(),
        "Option --level is useless without options --recurse or --tree."
    );
}

#[test]
fn grammar_messages() {
    let told = |fail: Fail| Misfire::InvalidOptions(fail).message();
    assert_eq!(
        told(Fail::ArgumentMissing("level".to_string())),
        "Argument to option 'level' missing"
    );
    assert_eq!(
        told(Fail::UnrecognizedOption("--sort colour".to_string())),
        "Unrecognized option: '--sort colour'"
    );
    assert_eq!(told(Fail::OptionMissing("x".to_string())), "Required option 'x' missing");
    assert_eq!(
        told(Fail::OptionDuplicated("long".to_string())),
        "Option 'long' given more than once"
    );
    assert_eq!(
        told(Fail::UnexpectedArgument("long".to_string())),
        "Option 'long' does not take an argument"
    );
}

#[test]
fn failed_parse_message() {
    let failed = resolve(&["--tree", "--level", "deep"], &on_terminal()).unwrap_err();
    assert_eq!(failed.message(), "Failed to parse number: invalid digit found in string");
}
