//! The options that the command line may hold, and the flag set that a
//! parsed command line comes to.

use vstd::prelude::*;
use vstd::string::*;
use crate::flags::{Environment, Flags, FlagsView};
use crate::parser::{
    add_flag, add_value, matched, new_parser, opt_present, opt_str, parser_view, well_named,
    OptDecl, Parsed, ParserView,
};
use getopts::Matches;
use getopts::Options as Parser;

verus! {

/// An option that takes no value.
pub open spec fn flag(short: &str, long: &str, desc: &str) -> OptDecl {
    OptDecl {
        short: short@,
        long: long@,
        desc: desc@,
        hint: Seq::<char>::empty(),
        takes_value: false,
    }
}

/// An option that takes a value, shown in the usage text as `hint`.
pub open spec fn valued(short: &str, long: &str, desc: &str, hint: &str) -> OptDecl {
    OptDecl { short: short@, long: long@, desc: desc@, hint: hint@, takes_value: true }
}

/// The options that every environment has, in the order of the usage text.
pub open spec fn common_options() -> Seq<OptDecl> {
    Seq::<OptDecl>::empty()
        .push(flag("1", "oneline", "display one entry per line"))
        .push(flag("a", "all", "show dot-files"))
        .push(flag("b", "binary", "use binary prefixes in file sizes"))
        .push(flag("B", "bytes", "list file sizes in bytes, without prefixes"))
        .push(flag("d", "list-dirs", "list directories as regular files"))
        .push(flag("g", "group", "show group as well as user"))
        .push(flag("G", "grid", "display entries in a grid view (default)"))
        .push(flag("", "group-directories-first", "list directories before other files"))
        .push(flag("h", "header", "show a header row at the top"))
        .push(flag("H", "links", "show number of hard links"))
        .push(flag("i", "inode", "show each file's inode number"))
        .push(flag("l", "long", "display extended details and attributes"))
        .push(valued("L", "level", "maximum depth of recursion", "DEPTH"))
        .push(flag("m", "modified", "display timestamp of most recent modification"))
        .push(flag("r", "reverse", "reverse order of files"))
        .push(flag("R", "recurse", "recurse into directories"))
        .push(valued("s", "sort", "field to sort by", "WORD"))
        .push(flag("S", "blocks", "show number of file system blocks"))
        .push(valued("t", "time", "which timestamp to show for a file", "WORD"))
        .push(flag("T", "tree", "recurse into subdirectories in a tree view"))
        .push(flag("u", "accessed", "display timestamp of last access for a file"))
        .push(flag("U", "created", "display timestamp of creation for a file"))
        .push(flag("x", "across", "sort multi-column view entries across"))
        .push(flag("", "version", "display version of exa"))
        .push(flag("?", "help", "show list of command-line options"))
}

/// The options of an environment: the common ones, then `git` where
/// repository status can be shown, then `extended` where extended
/// attributes can be read.
pub open spec fn option_table(env: Environment) -> Seq<OptDecl> {
    let table = common_options();
    let table = if env.git {
        table.push(flag("", "git", "show git status"))
    } else {
        table
    };
    if env.xattr {
        table.push(
            flag("@", "extended", "display extended attribute keys and sizes in long (-l) output"),
        )
    } else {
        table
    }
}

/// The parser of an environment, before it has parsed anything.
pub open spec fn parser_of(env: Environment) -> ParserView {
    ParserView { options: option_table(env), floating_frees: true, long_only: false }
}

/// Declares a flag to a parser whose options are all well named, and keeps
/// them so.
fn declare_flag(parser: &mut Parser, short: &str, long: &str, desc: &str)
    requires
        short@.len() <= 1,
        is_ascii(short),
        long@.len() >= 2,
        well_named(parser_view(*old(parser))),
    ensures
        parser_view(*final(parser)) == (ParserView {
            options: parser_view(*old(parser)).options.push(flag(short, long, desc)),
            ..parser_view(*old(parser))
        }),
        well_named(parser_view(*final(parser))),
{
    add_flag(parser, short, long, desc);
}

/// Declares an option with a value to a parser whose options are all well
/// named, and keeps them so.
fn declare_value(parser: &mut Parser, short: &str, long: &str, desc: &str, hint: &str)
    requires
        short@.len() <= 1,
        is_ascii(short),
        long@.len() >= 2,
        well_named(parser_view(*old(parser))),
    ensures
        parser_view(*final(parser)) == (ParserView {
            options: parser_view(*old(parser)).options.push(valued(short, long, desc, hint)),
            ..parser_view(*old(parser))
        }),
        well_named(parser_view(*final(parser))),
{
    add_value(parser, short, long, desc, hint);
}

/// What the names of the options are made of: each short name is at most
/// one ASCII character, each long name has two characters or more.
proof fn lemma_option_names()
    ensures
        "1"@.len() <= 1 && is_ascii("1"),
        "a"@.len() <= 1 && is_ascii("a"),
        "b"@.len() <= 1 && is_ascii("b"),
        "B"@.len() <= 1 && is_ascii("B"),
        "d"@.len() <= 1 && is_ascii("d"),
        "g"@.len() <= 1 && is_ascii("g"),
        "G"@.len() <= 1 && is_ascii("G"),
        ""@.len() <= 1 && is_ascii(""),
        "h"@.len() <= 1 && is_ascii("h"),
        "H"@.len() <= 1 && is_ascii("H"),
        "i"@.len() <= 1 && is_ascii("i"),
        "l"@.len() <= 1 && is_ascii("l"),
        "L"@.len() <= 1 && is_ascii("L"),
        "m"@.len() <= 1 && is_ascii("m"),
        "r"@.len() <= 1 && is_ascii("r"),
        "R"@.len() <= 1 && is_ascii("R"),
        "s"@.len() <= 1 && is_ascii("s"),
        "S"@.len() <= 1 && is_ascii("S"),
        "t"@.len() <= 1 && is_ascii("t"),
        "T"@.len() <= 1 && is_ascii("T"),
        "u"@.len() <= 1 && is_ascii("u"),
        "U"@.len() <= 1 && is_ascii("U"),
        "x"@.len() <= 1 && is_ascii("x"),
        "?"@.len() <= 1 && is_ascii("?"),
        "@"@.len() <= 1 && is_ascii("@"),
        "oneline"@.len() >= 2,
        "all"@.len() >= 2,
        "binary"@.len() >= 2,
        "bytes"@.len() >= 2,
        "list-dirs"@.len() >= 2,
        "group"@.len() >= 2,
        "grid"@.len() >= 2,
        "group-directories-first"@.len() >= 2,
        "header"@.len() >= 2,
        "links"@.len() >= 2,
        "inode"@.len() >= 2,
        "long"@.len() >= 2,
        "level"@.len() >= 2,
        "modified"@.len() >= 2,
        "reverse"@.len() >= 2,
        "recurse"@.len() >= 2,
        "sort"@.len() >= 2,
        "blocks"@.len() >= 2,
        "time"@.len() >= 2,
        "tree"@.len() >= 2,
        "accessed"@.len() >= 2,
        "created"@.len() >= 2,
        "across"@.len() >= 2,
        "version"@.len() >= 2,
        "help"@.len() >= 2,
        "git"@.len() >= 2,
        "extended"@.len() >= 2,
{
    reveal_strlit("1");
    reveal_strlit("a");
    reveal_strlit("b");
    reveal_strlit("B");
    reveal_strlit("d");
    reveal_strlit("g");
    reveal_strlit("G");
    reveal_strlit("");
    reveal_strlit("h");
    reveal_strlit("H");
    reveal_strlit("i");
    reveal_strlit("l");
    reveal_strlit("L");
    reveal_strlit("m");
    reveal_strlit("r");
    reveal_strlit("R");
    reveal_strlit("s");
    reveal_strlit("S");
    reveal_strlit("t");
    reveal_strlit("T");
    reveal_strlit("u");
    reveal_strlit("U");
    reveal_strlit("x");
    reveal_strlit("?");
    reveal_strlit("@");
    reveal_strlit("oneline");
    reveal_strlit("all");
    reveal_strlit("binary");
    reveal_strlit("bytes");
    reveal_strlit("list-dirs");
    reveal_strlit("group");
    reveal_strlit("grid");
    reveal_strlit("group-directories-first");
    reveal_strlit("header");
    reveal_strlit("links");
    reveal_strlit("inode");
    reveal_strlit("long");
    reveal_strlit("level");
    reveal_strlit("modified");
    reveal_strlit("reverse");
    reveal_strlit("recurse");
    reveal_strlit("sort");
    reveal_strlit("blocks");
    reveal_strlit("time");
    reveal_strlit("tree");
    reveal_strlit("accessed");
    reveal_strlit("created");
    reveal_strlit("across");
    reveal_strlit("version");
    reveal_strlit("help");
    reveal_strlit("git");
    reveal_strlit("extended");
}

/// Builds the parser of an environment.
pub(crate) fn build_parser(env: &Environment) -> (parser: Parser)
    ensures
        parser_view(parser) == parser_of(*env),
        well_named(parser_view(parser)),
{
    proof {
        lemma_option_names();
    }
    let mut parser = new_parser();
    declare_flag(&mut parser, "1", "oneline", "display one entry per line");
    declare_flag(&mut parser, "a", "all", "show dot-files");
    declare_flag(&mut parser, "b", "binary", "use binary prefixes in file sizes");
    declare_flag(&mut parser, "B", "bytes", "list file sizes in bytes, without prefixes");
    declare_flag(&mut parser, "d", "list-dirs", "list directories as regular files");
    declare_flag(&mut parser, "g", "group", "show group as well as user");
    declare_flag(&mut parser, "G", "grid", "display entries in a grid view (default)");
    declare_flag(&mut parser, "", "group-directories-first", "list directories before other files");
    declare_flag(&mut parser, "h", "header", "show a header row at the top");
    declare_flag(&mut parser, "H", "links", "show number of hard links");
    declare_flag(&mut parser, "i", "inode", "show each file's inode number");
    declare_flag(&mut parser, "l", "long", "display extended details and attributes");
    declare_value(&mut parser, "L", "level", "maximum depth of recursion", "DEPTH");
    declare_flag(&mut parser, "m", "modified", "display timestamp of most recent modification");
    declare_flag(&mut parser, "r", "reverse", "reverse order of files");
    declare_flag(&mut parser, "R", "recurse", "recurse into directories");
    declare_value(&mut parser, "s", "sort", "field to sort by", "WORD");
    declare_flag(&mut parser, "S", "blocks", "show number of file system blocks");
    declare_value(&mut parser, "t", "time", "which timestamp to show for a file", "WORD");
    declare_flag(&mut parser, "T", "tree", "recurse into subdirectories in a tree view");
    declare_flag(&mut parser, "u", "accessed", "display timestamp of last access for a file");
    declare_flag(&mut parser, "U", "created", "display timestamp of creation for a file");
    declare_flag(&mut parser, "x", "across", "sort multi-column view entries across");
    declare_flag(&mut parser, "", "version", "display version of exa");
    declare_flag(&mut parser, "?", "help", "show list of command-line options");

    if env.git {
        declare_flag(&mut parser, "", "git", "show git status");
    }

    if env.xattr {
        declare_flag(
            &mut parser,
            "@",
            "extended",
            "display extended attribute keys and sizes in long (-l) output",
        );
    }

    parser
}

/// Whether every option of an environment can be asked for in what a
/// parse matched.
pub open spec fn askable(
    matched: Map<Seq<char>, Seq<Option<Seq<char>>>>,
    env: Environment,
) -> bool {
    &&& matched.dom().contains("oneline"@)
    &&& matched.dom().contains("all"@)
    &&& matched.dom().contains("binary"@)
    &&& matched.dom().contains("bytes"@)
    &&& matched.dom().contains("list-dirs"@)
    &&& matched.dom().contains("group"@)
    &&& matched.dom().contains("grid"@)
    &&& matched.dom().contains("group-directories-first"@)
    &&& matched.dom().contains("header"@)
    &&& matched.dom().contains("links"@)
    &&& matched.dom().contains("inode"@)
    &&& matched.dom().contains("long"@)
    &&& matched.dom().contains("level"@)
    &&& matched.dom().contains("modified"@)
    &&& matched.dom().contains("reverse"@)
    &&& matched.dom().contains("recurse"@)
    &&& matched.dom().contains("sort"@)
    &&& matched.dom().contains("blocks"@)
    &&& matched.dom().contains("time"@)
    &&& matched.dom().contains("tree"@)
    &&& matched.dom().contains("accessed"@)
    &&& matched.dom().contains("created"@)
    &&& matched.dom().contains("across"@)
    &&& matched.dom().contains("version"@)
    &&& matched.dom().contains("help"@)
    &&& env.git ==> matched.dom().contains("git"@)
    &&& env.xattr ==> matched.dom().contains("extended"@)
}

/// After a parse by the parser of an environment, each of its options can
/// be asked for.
pub(crate) proof fn lemma_table_askable(
    matched: Map<Seq<char>, Seq<Option<Seq<char>>>>,
    env: Environment,
)
    requires
        forall|i: int|
            0 <= i < option_table(env).len() ==> matched.dom().contains(
                (#[trigger] option_table(env)[i]).long,
            ),
    ensures
        askable(matched, env),
{
    let table = option_table(env);
    let common = common_options();
    assert(common.len() == 25);
    assert(forall|i: int| 0 <= i < 25 ==> table[i] == common[i]);
    assert(table[0].long == "oneline"@);
    assert(table[1].long == "all"@);
    assert(table[2].long == "binary"@);
    assert(table[3].long == "bytes"@);
    assert(table[4].long == "list-dirs"@);
    assert(table[5].long == "group"@);
    assert(table[6].long == "grid"@);
    assert(table[7].long == "group-directories-first"@);
    assert(table[8].long == "header"@);
    assert(table[9].long == "links"@);
    assert(table[10].long == "inode"@);
    assert(table[11].long == "long"@);
    assert(table[12].long == "level"@);
    assert(table[13].long == "modified"@);
    assert(table[14].long == "reverse"@);
    assert(table[15].long == "recurse"@);
    assert(table[16].long == "sort"@);
    assert(table[17].long == "blocks"@);
    assert(table[18].long == "time"@);
    assert(table[19].long == "tree"@);
    assert(table[20].long == "accessed"@);
    assert(table[21].long == "created"@);
    assert(table[22].long == "across"@);
    assert(table[23].long == "version"@);
    assert(table[24].long == "help"@);
    if env.git {
        assert(table[25].long == "git"@);
    }
    if env.xattr {
        assert(table[table.len() - 1].long == "extended"@);
    }
}

impl Flags {
    /// The flag set of a parsed command line. `git` and `extended` are
    /// only looked at where the environment has them.
    pub open spec fn of(parsed: Parsed, env: Environment) -> FlagsView {
        Flags::read_from(parsed.matched, env)
    }

    /// The flag set that the occurrences of a command line's options come
    /// to.
    pub open spec fn read_from(
        matched: Map<Seq<char>, Seq<Option<Seq<char>>>>,
        env: Environment,
    ) -> FlagsView {
        let parsed = Parsed { matched: matched, free: Seq::<Seq<char>>::empty() };
        FlagsView {
            oneline: parsed.present("oneline"@),
            all: parsed.present("all"@),
            binary: parsed.present("binary"@),
            bytes: parsed.present("bytes"@),
            list_dirs: parsed.present("list-dirs"@),
            group: parsed.present("group"@),
            grid: parsed.present("grid"@),
            group_directories_first: parsed.present("group-directories-first"@),
            header: parsed.present("header"@),
            links: parsed.present("links"@),
            inode: parsed.present("inode"@),
            long: parsed.present("long"@),
            level: parsed.value("level"@),
            modified: parsed.present("modified"@),
            reverse: parsed.present("reverse"@),
            recurse: parsed.present("recurse"@),
            sort: parsed.value("sort"@),
            blocks: parsed.present("blocks"@),
            time: parsed.value("time"@),
            tree: parsed.present("tree"@),
            accessed: parsed.present("accessed"@),
            created: parsed.present("created"@),
            across: parsed.present("across"@),
            git: env.git && parsed.present("git"@),
            extended: env.xattr && parsed.present("extended"@),
        }
    }

    /// Reads the flag set out of what a parse matched.
    pub(crate) fn read(matches: &Matches, env: &Environment) -> (flags: Flags)
        requires
            askable(matched(*matches), *env),
        ensures
            flags@ == Flags::read_from(matched(*matches), *env),
    {
        Flags {
            oneline: opt_present(matches, "oneline"),
            all: opt_present(matches, "all"),
            binary: opt_present(matches, "binary"),
            bytes: opt_present(matches, "bytes"),
            list_dirs: opt_present(matches, "list-dirs"),
            group: opt_present(matches, "group"),
            grid: opt_present(matches, "grid"),
            group_directories_first: opt_present(matches, "group-directories-first"),
            header: opt_present(matches, "header"),
            links: opt_present(matches, "links"),
            inode: opt_present(matches, "inode"),
            long: opt_present(matches, "long"),
            level: opt_str(matches, "level"),
            modified: opt_present(matches, "modified"),
            reverse: opt_present(matches, "reverse"),
            recurse: opt_present(matches, "recurse"),
            sort: opt_str(matches, "sort"),
            blocks: opt_present(matches, "blocks"),
            time: opt_str(matches, "time"),
            tree: opt_present(matches, "tree"),
            accessed: opt_present(matches, "accessed"),
            created: opt_present(matches, "created"),
            across: opt_present(matches, "across"),
            git: env.git && opt_present(matches, "git"),
            extended: env.xattr && opt_present(matches, "extended"),
        }
    }
}

} // verus!
