//! What holds of resolution and of sorting whatever the input.

use vstd::prelude::*;
use vstd::seq_lib::*;
use crate::arguments::parser_of;
use crate::columns::Columns;
use crate::dir_action::DirAction;
use crate::file::File;
use crate::filter::{dirs_first, is_dir, is_other, FileFilter};
use crate::flags::{Environment, FlagsView};
use crate::misfire::MisfireView;
use crate::options::{Options, USAGE};
use crate::order::{
    lemma_sort_filter, lemma_sort_of_ordered, lemma_sort_of_permutation, lemma_sort_orders,
    lemma_sort_permutes, lemma_within_of_permutation, stable_sort, tells_apart, weak_order_on,
    within,
};
use crate::parser::{parse_outcome, usage_text};
use crate::vocabulary::{SizeFormat, SortField};

verus! {

/// A command line that the parser accepts and that asks for help gets
/// help, whatever else it holds.
pub proof fn lemma_help_wins(args: Seq<Seq<char>>, env: Environment)
    requires
        parse_outcome(parser_of(env), args) matches Ok(parsed) && parsed.present("help"@),
    ensures
        Options::resolution(args, env) == Err::<(Options, Seq<Seq<char>>), MisfireView>(
            MisfireView::Help(usage_text(parser_of(env), USAGE@)),
        ),
{
}

/// Without free arguments the current directory is listed, and nothing
/// else.
pub proof fn lemma_lists_current_directory_by_default(flags: FlagsView, env: Environment)
    ensures
        Options::deduced(flags, Seq::<Seq<char>>::empty(), env) matches Ok((_, paths)) ==> paths
            == seq!["."@],
{
}

/// A flag set that gives no sort word is sorted by name, wherever its
/// resolution succeeds.
pub proof fn lemma_sorts_by_name_by_default(
    flags: FlagsView,
    free: Seq<Seq<char>>,
    env: Environment,
)
    requires
        flags.sort is None,
    ensures
        SortField::deduced(flags) == Ok::<SortField, MisfireView>(SortField::Name),
        Options::deduced(flags, free, env) matches Ok((options, _)) ==> options.filter.sort_field
            == SortField::Name,
{
}

/// `binary` and `bytes` together are a conflict for the size format and
/// for the columns, whatever else the flag set holds.
pub proof fn lemma_binary_conflicts_with_bytes(flags: FlagsView, env: Environment)
    requires
        flags.binary,
        flags.bytes,
    ensures
        SizeFormat::deduced(flags) == Err::<SizeFormat, MisfireView>(
            MisfireView::Conflict("binary"@, "bytes"@),
        ),
        Columns::deduced(flags, env) == Err::<Columns, MisfireView>(
            MisfireView::Conflict("binary"@, "bytes"@),
        ),
{
}

/// `binary` and `bytes` together make the resolution of a long listing
/// fail with their conflict, where no earlier rule has failed: the sort
/// word and the directory action are in order, and neither `oneline` nor an
/// `across` without `grid` is given.
pub proof fn lemma_long_binary_conflicts_with_bytes(
    flags: FlagsView,
    free: Seq<Seq<char>>,
    env: Environment,
)
    requires
        flags.binary,
        flags.bytes,
        flags.long,
        FileFilter::deduced(flags) is Ok,
        DirAction::deduced(flags) is Ok,
        !flags.oneline,
        flags.across ==> flags.grid,
    ensures
        Options::deduced(flags, free, env) == Err::<(Options, Seq<Seq<char>>), MisfireView>(
            MisfireView::Conflict("binary"@, "bytes"@),
        ),
{
}

/// `recurse` and `list-dirs` together are a conflict for the directory
/// action, whatever else the flag set holds, and make the resolution fail
/// with it where the sort word is in order.
pub proof fn lemma_recurse_conflicts_with_list_dirs(
    flags: FlagsView,
    free: Seq<Seq<char>>,
    env: Environment,
)
    requires
        flags.recurse,
        flags.list_dirs,
    ensures
        DirAction::deduced(flags) == Err::<DirAction, MisfireView>(
            MisfireView::Conflict("recurse"@, "list-dirs"@),
        ),
        FileFilter::deduced(flags) is Ok ==> Options::deduced(flags, free, env) == Err::<
            (Options, Seq<Seq<char>>),
            MisfireView,
        >(MisfireView::Conflict("recurse"@, "list-dirs"@)),
{
}

/// Keeping the items of one kind changes nothing in a sequence of items of
/// that kind.
proof fn lemma_filter_all<T>(s: Seq<T>, kind: spec_fn(T) -> bool)
    requires
        forall|i: int| 0 <= i < s.len() ==> kind(#[trigger] s[i]),
    ensures
        s.filter(kind) == s,
    decreases s.len(),
{
    if s.len() == 0 {
        s.lemma_filter_len(kind);
        assert(s.filter(kind) =~= s);
    } else {
        assert forall|i: int| 0 <= i < s.drop_last().len() implies kind(
            #[trigger] s.drop_last()[i],
        ) by {
            assert(s.drop_last()[i] == s[i]);
        }
        lemma_filter_all(s.drop_last(), kind);
        assert(s.drop_last().push(s.last()) =~= s);
        s.drop_last().lemma_filter_push(s.last(), kind);
    }
}

/// Keeping the items of one kind leaves nothing of a sequence that has
/// none of that kind.
proof fn lemma_filter_none<T>(s: Seq<T>, kind: spec_fn(T) -> bool)
    requires
        forall|i: int| 0 <= i < s.len() ==> !kind(#[trigger] s[i]),
    ensures
        s.filter(kind) == Seq::<T>::empty(),
    decreases s.len(),
{
    if s.len() == 0 {
        s.lemma_filter_len(kind);
        assert(s.filter(kind) =~= Seq::<T>::empty());
    } else {
        assert forall|i: int| 0 <= i < s.drop_last().len() implies !kind(
            #[trigger] s.drop_last()[i],
        ) by {
            assert(s.drop_last()[i] == s[i]);
        }
        lemma_filter_none(s.drop_last(), kind);
        assert(s.drop_last().push(s.last()) =~= s);
        s.drop_last().lemma_filter_push(s.last(), kind);
    }
}

/// Bringing the directories to the front is stable: the directories stand
/// in the order in which they stood, and so does everything else; and no
/// directory stands behind anything that is none.
pub proof fn lemma_dirs_first_is_stable(files: Seq<File>)
    ensures
        dirs_first(files).filter(is_dir()) == files.filter(is_dir()),
        dirs_first(files).filter(is_other()) == files.filter(is_other()),
        forall|i: int, j: int|
            0 <= i < j < dirs_first(files).len() && dirs_first(files)[j].is_dir ==> dirs_first(
                files,
            )[i].is_dir,
{
    let dirs = files.filter(is_dir());
    let others = files.filter(is_other());
    assert forall|i: int| 0 <= i < dirs.len() implies (#[trigger] dirs[i]).is_dir by {
        files.lemma_filter_pred(is_dir(), i);
    }
    assert forall|i: int| 0 <= i < others.len() implies !(#[trigger] others[i]).is_dir by {
        files.lemma_filter_pred(is_other(), i);
    }
    lemma_filter_all(dirs, is_dir());
    lemma_filter_none(dirs, is_other());
    lemma_filter_none(others, is_dir());
    lemma_filter_all(others, is_other());
    Seq::filter_distributes_over_add(dirs, others, is_dir());
    Seq::filter_distributes_over_add(dirs, others, is_other());
    assert(dirs + Seq::<File>::empty() =~= dirs);
    assert(Seq::<File>::empty() + others =~= others);
}

/// Bringing the directories to the front neither drops nor adds a file.
pub proof fn lemma_dirs_first_permutes(files: Seq<File>)
    ensures
        dirs_first(files).to_multiset() == files.to_multiset(),
    decreases files.len(),
{
    if files.len() == 0 {
        files.lemma_filter_len(is_dir());
        files.lemma_filter_len(is_other());
        assert(dirs_first(files) =~= files);
    } else {
        let rest = files.drop_last();
        let x = files.last();
        lemma_dirs_first_permutes(rest);
        assert(rest.push(x) =~= files);
        rest.lemma_filter_push(x, is_dir());
        rest.lemma_filter_push(x, is_other());
        let dirs = rest.filter(is_dir());
        let others = rest.filter(is_other());
        lemma_multiset_commutative(dirs, others);
        to_multiset_build(rest, x);
        if x.is_dir {
            lemma_multiset_commutative(dirs.push(x), others);
            to_multiset_build(dirs, x);
            assert(dirs_first(files).to_multiset() =~= files.to_multiset());
        } else {
            lemma_multiset_commutative(dirs, others.push(x));
            to_multiset_build(others, x);
            assert(dirs_first(files).to_multiset() =~= files.to_multiset());
        }
    }
}

/// Sizes, inodes and times are weak orders on any files, and so is the
/// order that leaves files unsorted.
pub proof fn lemma_numbers_order_weakly(filter: FileFilter, items: Set<File>)
    requires
        filter.sort_field != SortField::Name,
        filter.sort_field != SortField::Extension,
    ensures
        weak_order_on(items, filter.relation()),
{
}

/// Sorting is idempotent: files that have been sorted stay as they are
/// when they are sorted again under the same filter.
///
/// The sort field has to be a weak order on the files. Under a filter that
/// reverses, it also has to tell any two different files apart: reversing
/// turns tied files round, and every further sorting turns them round
/// again.
pub proof fn lemma_sorting_is_idempotent(filter: FileFilter, files: Seq<File>)
    requires
        weak_order_on(files.to_set(), filter.relation()),
        filter.reverse ==> tells_apart(files.to_set(), filter.relation()),
    ensures
        filter.sorted(filter.sorted(files)) == filter.sorted(files),
{
    let items = files.to_set();
    let after = filter.relation();
    assert(within(files, items)) by {
        assert forall|i: int| 0 <= i < files.len() implies items.contains(#[trigger] files[i]) by {
            assert(files.contains(files[i]));
        }
    }
    let by_field = stable_sort(files, after);
    lemma_sort_orders(files, after, items);
    lemma_sort_permutes(files, after);
    let once = filter.sorted(files);
    if filter.reverse {
        let directed = by_field.reverse();
        by_field.lemma_reverse_to_multiset();
        if filter.list_dirs_first {
            lemma_dirs_first_permutes(directed);
        }
        assert(once.to_multiset() == by_field.to_multiset());
        lemma_sort_of_permutation(once, by_field, after, items);
        lemma_sort_of_ordered(by_field, after);
    } else if filter.list_dirs_first {
        let dirs = by_field.filter(is_dir());
        let others = by_field.filter(is_other());
        lemma_dirs_first_permutes(by_field);
        lemma_within_of_permutation(once, by_field, items);
        lemma_dirs_first_is_stable(by_field);
        lemma_kind_stays_sorted(files, filter, is_dir(), items);
        lemma_kind_stays_sorted(files, filter, is_other(), items);
        lemma_sort_filter(once, after, is_dir(), items);
        lemma_sort_filter(once, after, is_other(), items);
    } else {
        lemma_sort_of_ordered(by_field, after);
    }
}

/// Where the files are sorted by a number, or left unsorted, and the order
/// is not reversed, sorting is idempotent whatever the files are.
pub proof fn lemma_sorting_by_number_is_idempotent(filter: FileFilter, files: Seq<File>)
    requires
        filter.sort_field != SortField::Name,
        filter.sort_field != SortField::Extension,
        !filter.reverse,
    ensures
        filter.sorted(filter.sorted(files)) == filter.sorted(files),
{
    lemma_numbers_order_weakly(filter, files.to_set());
    lemma_sorting_is_idempotent(filter, files);
}

/// Sorting neither drops nor adds a file.
pub proof fn lemma_sorting_permutes(filter: FileFilter, files: Seq<File>)
    ensures
        filter.sorted(files).to_multiset() == files.to_multiset(),
{
    let by_field = stable_sort(files, filter.relation());
    lemma_sort_permutes(files, filter.relation());
    let directed = if filter.reverse {
        by_field.reverse()
    } else {
        by_field
    };
    if filter.reverse {
        by_field.lemma_reverse_to_multiset();
    }
    if filter.list_dirs_first {
        lemma_dirs_first_permutes(directed);
    }
}

/// Under a filter that lists directories first, no directory stands
/// behind a file that is none, whether the order is reversed or not.
pub proof fn lemma_directories_lead(filter: FileFilter, files: Seq<File>)
    requires
        filter.list_dirs_first,
    ensures
        forall|i: int, j: int|
            0 <= i < j < filter.sorted(files).len() && filter.sorted(files)[j].is_dir
                ==> filter.sorted(files)[i].is_dir,
{
    let by_field = stable_sort(files, filter.relation());
    let directed = if filter.reverse {
        by_field.reverse()
    } else {
        by_field
    };
    lemma_dirs_first_is_stable(directed);
}

/// Under a weak order, the files of one kind among sorted files are
/// themselves sorted.
proof fn lemma_kind_stays_sorted(
    files: Seq<File>,
    filter: FileFilter,
    kind: spec_fn(File) -> bool,
    items: Set<File>,
)
    requires
        within(files, items),
        weak_order_on(items, filter.relation()),
    ensures
        stable_sort(stable_sort(files, filter.relation()).filter(kind), filter.relation())
            == stable_sort(files, filter.relation()).filter(kind),
{
    let after = filter.relation();
    lemma_sort_filter(files, after, kind, items);
    let kept = files.filter(kind);
    assert(within(kept, items)) by {
        assert forall|i: int| 0 <= i < kept.len() implies items.contains(#[trigger] kept[i]) by {
            assert(kept.contains(kept[i]));
            files.lemma_filter_contains_rev(kind, kept[i]);
            let at = choose|at: int| 0 <= at < files.len() && files[at] == kept[i];
            assert(items.contains(files[at]));
        }
    }
    lemma_sort_orders(kept, after, items);
    lemma_sort_of_ordered(stable_sort(kept, after), after);
}

} // verus!
