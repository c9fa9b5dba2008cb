//! Stable sorting of a sequence by a relation, and what is true of it.
//!
//! The relation `after(a, b)` says that `a` has to come after `b`. Sorting
//! is defined for any relation. Where the relation is a weak order, the
//! result is in order, and items that the relation does not tell apart keep
//! their places relative to each other.

use vstd::prelude::*;
use vstd::seq_lib::*;

verus! {

/// Where an item lands in a sequence: behind the rightmost item that need
/// not come after it.
pub open spec fn slot<T>(s: Seq<T>, x: T, after: spec_fn(T, T) -> bool) -> int
    decreases s.len(),
{
    if s.len() > 0 && after(s.last(), x) {
        slot(s.drop_last(), x, after)
    } else {
        s.len() as int
    }
}

/// A sequence sorted by putting its items, from the first to the last,
/// each into its slot among those before it.
pub open spec fn stable_sort<T>(s: Seq<T>, after: spec_fn(T, T) -> bool) -> Seq<T>
    decreases s.len(),
{
    if s.len() == 0 {
        s
    } else {
        let sorted = stable_sort(s.drop_last(), after);
        sorted.insert(slot(sorted, s.last(), after), s.last())
    }
}

/// Whether no item of a sequence has to come after a later one.
pub open spec fn ordered<T>(s: Seq<T>, after: spec_fn(T, T) -> bool) -> bool {
    forall|i: int, j: int| 0 <= i < j < s.len() ==> !after(#[trigger] s[i], #[trigger] s[j])
}

/// Whether every item of a sequence belongs to a set.
pub open spec fn within<T>(s: Seq<T>, items: Set<T>) -> bool {
    forall|i: int| 0 <= i < s.len() ==> items.contains(#[trigger] s[i])
}

/// Whether a relation is a weak order on a set of items: of two items at
/// most one has to come after the other, and an item that need not come
/// after a second, which need not come after a third, need not come after
/// the third.
pub open spec fn weak_order_on<T>(items: Set<T>, after: spec_fn(T, T) -> bool) -> bool {
    &&& forall|a: T, b: T|
        items.contains(a) && items.contains(b) && #[trigger] after(a, b) ==> !after(b, a)
    &&& forall|a: T, b: T, c: T|
        #![trigger after(a, b), after(b, c)]
        items.contains(a) && items.contains(b) && items.contains(c) && !after(a, b) && !after(b, c)
            ==> !after(a, c)
}

/// Whether the relation tells neither of two items to come after the
/// other.
pub open spec fn tied<T>(a: T, b: T, after: spec_fn(T, T) -> bool) -> bool {
    !after(a, b) && !after(b, a)
}

/// The slot of an item lies in the sequence or at its end; everything from
/// the slot on has to come after the item, and what stands just before the
/// slot need not.
pub proof fn lemma_slot<T>(s: Seq<T>, x: T, after: spec_fn(T, T) -> bool)
    ensures
        0 <= slot(s, x, after) <= s.len(),
        forall|j: int| slot(s, x, after) <= j < s.len() ==> after(#[trigger] s[j], x),
        slot(s, x, after) > 0 ==> !after(s[slot(s, x, after) - 1], x),
    decreases s.len(),
{
    if s.len() > 0 && after(s.last(), x) {
        lemma_slot(s.drop_last(), x, after);
        assert forall|j: int| slot(s, x, after) <= j < s.len() implies after(
            #[trigger] s[j],
            x,
        ) by {
            if j < s.len() - 1 {
                assert(s.drop_last()[j] == s[j]);
            }
        }
    }
}

/// Sorting neither drops nor adds nor copies an item: the sorted sequence
/// holds each item as often as the sequence does.
pub proof fn lemma_sort_permutes<T>(s: Seq<T>, after: spec_fn(T, T) -> bool)
    ensures
        stable_sort(s, after).to_multiset() == s.to_multiset(),
    decreases s.len(),
{
    if s.len() > 0 {
        let rest = s.drop_last();
        let sorted = stable_sort(rest, after);
        lemma_sort_permutes(rest, after);
        lemma_slot(sorted, s.last(), after);
        to_multiset_insert(sorted, slot(sorted, s.last(), after), s.last());
        to_multiset_build(rest, s.last());
        assert(rest.push(s.last()) =~= s);
    }
}

/// Under a weak order, sorting puts a sequence in order, and its items are
/// those of the sequence.
pub proof fn lemma_sort_orders<T>(s: Seq<T>, after: spec_fn(T, T) -> bool, items: Set<T>)
    requires
        within(s, items),
        weak_order_on(items, after),
    ensures
        ordered(stable_sort(s, after), after),
        within(stable_sort(s, after), items),
    decreases s.len(),
{
    if s.len() > 0 {
        let rest = s.drop_last();
        let x = s.last();
        assert(within(rest, items)) by {
            assert forall|i: int| 0 <= i < rest.len() implies items.contains(
                #[trigger] rest[i],
            ) by {
                assert(rest[i] == s[i]);
            }
        }
        lemma_sort_orders(rest, after, items);
        let sorted = stable_sort(rest, after);
        let k = slot(sorted, x, after);
        lemma_slot(sorted, x, after);
        lemma_put_in_order(sorted, x, after, items);
    }
}

/// Under a weak order, an item put into its slot in an ordered sequence
/// leaves the sequence ordered.
pub proof fn lemma_put_in_order<T>(s: Seq<T>, x: T, after: spec_fn(T, T) -> bool, items: Set<T>)
    requires
        ordered(s, after),
        within(s, items),
        items.contains(x),
        weak_order_on(items, after),
    ensures
        ordered(s.insert(slot(s, x, after), x), after),
        within(s.insert(slot(s, x, after), x), items),
{
    let k = slot(s, x, after);
    lemma_slot(s, x, after);
    let r = s.insert(k, x);
    s.insert_ensures(k, x);
    lemma_before_slot(s, x, after, items);
    assert forall|i: int| 0 <= i < r.len() implies items.contains(#[trigger] r[i]) by {
        if i < k {
            assert(r[i] == s[i]);
        } else if i > k {
            assert(r[(i - 1) + 1] == s[i - 1]);
        }
    }
    assert forall|i: int, j: int| 0 <= i < j < r.len() implies !after(
        #[trigger] r[i],
        #[trigger] r[j],
    ) by {
        if j < k {
            assert(r[i] == s[i] && r[j] == s[j]);
        } else if j == k {
            assert(r[i] == s[i]);
            assert(r[j] == x);
        } else {
            assert(r[(j - 1) + 1] == s[j - 1]);
            if i < k {
                assert(r[i] == s[i]);
            } else if i == k {
                assert(r[i] == x);
                assert(after(s[j - 1], x));
            } else {
                assert(r[(i - 1) + 1] == s[i - 1]);
            }
        }
    }
}

/// Under a weak order, nothing before the slot of an item in an ordered
/// sequence has to come after the item.
pub proof fn lemma_before_slot<T>(s: Seq<T>, x: T, after: spec_fn(T, T) -> bool, items: Set<T>)
    requires
        ordered(s, after),
        within(s, items),
        items.contains(x),
        weak_order_on(items, after),
    ensures
        forall|i: int| 0 <= i < slot(s, x, after) ==> !after(#[trigger] s[i], x),
{
    let k = slot(s, x, after);
    lemma_slot(s, x, after);
    assert forall|i: int| 0 <= i < k implies !after(#[trigger] s[i], x) by {
        if i < k - 1 {
            assert(!after(s[i], s[k - 1]));
            assert(!after(s[k - 1], x));
        }
    }
}

/// Sorting a sequence that is in order changes nothing.
pub proof fn lemma_sort_of_ordered<T>(s: Seq<T>, after: spec_fn(T, T) -> bool)
    requires
        ordered(s, after),
    ensures
        stable_sort(s, after) == s,
    decreases s.len(),
{
    if s.len() > 0 {
        let rest = s.drop_last();
        assert(ordered(rest, after)) by {
            assert forall|i: int, j: int| 0 <= i < j < rest.len() implies !after(
                #[trigger] rest[i],
                #[trigger] rest[j],
            ) by {
                assert(rest[i] == s[i] && rest[j] == s[j]);
            }
        }
        lemma_sort_of_ordered(rest, after);
        if rest.len() > 0 {
            assert(rest.last() == s[s.len() - 2]);
            assert(!after(s[s.len() - 2], s[s.len() - 1]));
        }
        assert(slot(rest, s.last(), after) == rest.len());
        assert(rest.insert(rest.len() as int, s.last()) =~= s);
    }
}

/// The slot of an item in two sequences joined, where all of the second
/// has to come after the item and the end of the first need not: between
/// the two.
pub proof fn lemma_slot_between<T>(a: Seq<T>, b: Seq<T>, x: T, after: spec_fn(T, T) -> bool)
    requires
        forall|j: int| 0 <= j < b.len() ==> after(#[trigger] b[j], x),
        a.len() > 0 ==> !after(a.last(), x),
    ensures
        slot(a + b, x, after) == a.len(),
    decreases b.len(),
{
    if b.len() == 0 {
        assert(a + b =~= a);
    } else {
        assert((a + b).last() == b.last());
        assert((a + b).drop_last() =~= a + b.drop_last());
        assert forall|j: int| 0 <= j < b.drop_last().len() implies after(
            #[trigger] b.drop_last()[j],
            x,
        ) by {
            assert(b.drop_last()[j] == b[j]);
        }
        lemma_slot_between(a, b.drop_last(), x, after);
    }
}

/// Under a weak order, to put an item into its slot in an ordered sequence
/// and then keep the items of one kind comes to the same as to keep them
/// first and then, if the item is of that kind, put it into its slot.
pub proof fn lemma_put_then_filter<T>(
    s: Seq<T>,
    x: T,
    after: spec_fn(T, T) -> bool,
    kind: spec_fn(T) -> bool,
    items: Set<T>,
)
    requires
        ordered(s, after),
        within(s, items),
        items.contains(x),
        weak_order_on(items, after),
    ensures
        s.insert(slot(s, x, after), x).filter(kind) == if kind(x) {
            s.filter(kind).insert(slot(s.filter(kind), x, after), x)
        } else {
            s.filter(kind)
        },
{
    let k = slot(s, x, after);
    lemma_slot(s, x, after);
    lemma_before_slot(s, x, after, items);
    let front = s.subrange(0, k);
    let back = s.subrange(k, s.len() as int);
    assert(s =~= front + back);
    Seq::filter_distributes_over_add(front, back, kind);
    Seq::filter_distributes_over_add(front.push(x), back, kind);
    front.lemma_filter_push(x, kind);
    let kept_front = front.filter(kind);
    let kept_back = back.filter(kind);
    if kind(x) {
        assert forall|j: int| 0 <= j < kept_back.len() implies after(
            #[trigger] kept_back[j],
            x,
        ) by {
            assert(kept_back.contains(kept_back[j]));
            back.lemma_filter_contains_rev(kind, kept_back[j]);
            let at = choose|at: int| 0 <= at < back.len() && back[at] == kept_back[j];
            assert(back[at] == s[k + at]);
        }
        if kept_front.len() > 0 {
            assert(kept_front.contains(kept_front.last()));
            front.lemma_filter_contains_rev(kind, kept_front.last());
            let at = choose|at: int| 0 <= at < front.len() && front[at] == kept_front.last();
            assert(front[at] == s[at]);
        }
        lemma_slot_between(kept_front, kept_back, x, after);
        let kept = kept_front + kept_back;
        assert(kept.insert(kept_front.len() as int, x) =~= kept_front.push(x) + kept_back);
    }
}

/// Under a weak order, sorting and keeping the items of one kind can be
/// done in either order.
pub proof fn lemma_sort_filter<T>(
    s: Seq<T>,
    after: spec_fn(T, T) -> bool,
    kind: spec_fn(T) -> bool,
    items: Set<T>,
)
    requires
        within(s, items),
        weak_order_on(items, after),
    ensures
        stable_sort(s, after).filter(kind) == stable_sort(s.filter(kind), after),
    decreases s.len(),
{
    if s.len() == 0 {
        assert(s.filter(kind) =~= s) by {
            s.lemma_filter_len(kind);
        }
    } else {
        let rest = s.drop_last();
        let x = s.last();
        assert(within(rest, items)) by {
            assert forall|i: int| 0 <= i < rest.len() implies items.contains(
                #[trigger] rest[i],
            ) by {
                assert(rest[i] == s[i]);
            }
        }
        lemma_sort_filter(rest, after, kind, items);
        lemma_sort_orders(rest, after, items);
        lemma_put_then_filter(stable_sort(rest, after), x, after, kind, items);
        assert(rest.push(x) =~= s);
        rest.lemma_filter_push(x, kind);
        if kind(x) {
            assert(s.filter(kind).drop_last() =~= rest.filter(kind));
        }
    }
}

/// Under a weak order, sorting is stable: the items tied with a given one
/// stand in the sorted sequence in the order in which they stood before.
pub proof fn lemma_sort_stable<T>(s: Seq<T>, after: spec_fn(T, T) -> bool, items: Set<T>, e: T)
    requires
        within(s, items),
        items.contains(e),
        weak_order_on(items, after),
    ensures
        stable_sort(s, after).filter(|y: T| tied(y, e, after)) == s.filter(
            |y: T| tied(y, e, after),
        ),
{
    let kind = |y: T| tied(y, e, after);
    lemma_sort_filter(s, after, kind, items);
    let kept = s.filter(kind);
    assert forall|i: int, j: int| 0 <= i < j < kept.len() implies !after(
        #[trigger] kept[i],
        #[trigger] kept[j],
    ) by {
        s.lemma_filter_pred(kind, i);
        s.lemma_filter_pred(kind, j);
        assert(kept.contains(kept[i]) && kept.contains(kept[j]));
        s.lemma_filter_contains_rev(kind, kept[i]);
        s.lemma_filter_contains_rev(kind, kept[j]);
        assert(items.contains(kept[i]) && items.contains(kept[j]));
        assert(!after(kept[i], e) && !after(e, kept[j]));
    }
    lemma_sort_of_ordered(kept, after);
}

/// Whether a relation ties no two different items of a set.
pub open spec fn tells_apart<T>(items: Set<T>, after: spec_fn(T, T) -> bool) -> bool {
    forall|a: T, b: T|
        items.contains(a) && items.contains(b) && #[trigger] tied(a, b, after) ==> a == b
}

/// A sequence that holds the same items as one within a set lies within
/// that set too.
pub proof fn lemma_within_of_permutation<T>(u: Seq<T>, v: Seq<T>, items: Set<T>)
    requires
        within(v, items),
        u.to_multiset() == v.to_multiset(),
    ensures
        within(u, items),
{
    assert forall|i: int| 0 <= i < u.len() implies items.contains(#[trigger] u[i]) by {
        assert(u.contains(u[i]));
        to_multiset_contains(u, u[i]);
        to_multiset_contains(v, u[i]);
        let at = choose|at: int| 0 <= at < v.len() && v[at] == u[i];
        assert(items.contains(v[at]));
    }
}

/// Under a weak order that ties no two different items, there is one way
/// only to put given items in order.
pub proof fn lemma_ordered_unique<T>(
    u: Seq<T>,
    v: Seq<T>,
    after: spec_fn(T, T) -> bool,
    items: Set<T>,
)
    requires
        ordered(u, after),
        ordered(v, after),
        within(u, items),
        within(v, items),
        weak_order_on(items, after),
        tells_apart(items, after),
        u.to_multiset() == v.to_multiset(),
    ensures
        u == v,
    decreases u.len(),
{
    to_multiset_len(u);
    to_multiset_len(v);
    if u.len() == 0 {
        assert(u =~= v);
    } else {
        let x = u.last();
        let y = v.last();
        assert(u.contains(x));
        assert(v.contains(y));
        to_multiset_contains(u, x);
        to_multiset_contains(v, x);
        to_multiset_contains(u, y);
        to_multiset_contains(v, y);
        let j = choose|j: int| 0 <= j < v.len() && v[j] == x;
        let i = choose|i: int| 0 <= i < u.len() && u[i] == y;
        if x != y {
            assert(!after(v[j], v[v.len() - 1]));
            assert(!after(u[i], u[u.len() - 1]));
            assert(tied(x, y, after));
        }
        to_multiset_remove(u, u.len() - 1);
        to_multiset_remove(v, v.len() - 1);
        assert(u.remove(u.len() - 1) =~= u.drop_last());
        assert(v.remove(v.len() - 1) =~= v.drop_last());
        assert(ordered(u.drop_last(), after)) by {
            assert forall|a: int, b: int| 0 <= a < b < u.drop_last().len() implies !after(
                #[trigger] u.drop_last()[a],
                #[trigger] u.drop_last()[b],
            ) by {
                assert(u.drop_last()[a] == u[a] && u.drop_last()[b] == u[b]);
            }
        }
        assert(ordered(v.drop_last(), after)) by {
            assert forall|a: int, b: int| 0 <= a < b < v.drop_last().len() implies !after(
                #[trigger] v.drop_last()[a],
                #[trigger] v.drop_last()[b],
            ) by {
                assert(v.drop_last()[a] == v[a] && v.drop_last()[b] == v[b]);
            }
        }
        assert(within(u.drop_last(), items)) by {
            assert forall|a: int| 0 <= a < u.drop_last().len() implies items.contains(
                #[trigger] u.drop_last()[a],
            ) by {
                assert(u.drop_last()[a] == u[a]);
            }
        }
        assert(within(v.drop_last(), items)) by {
            assert forall|a: int| 0 <= a < v.drop_last().len() implies items.contains(
                #[trigger] v.drop_last()[a],
            ) by {
                assert(v.drop_last()[a] == v[a]);
            }
        }
        lemma_ordered_unique(u.drop_last(), v.drop_last(), after, items);
        assert(u =~= u.drop_last().push(x));
        assert(v =~= v.drop_last().push(y));
    }
}

/// Under a weak order that ties no two different items, the order in
/// which the items stand does not matter to the sorted sequence.
pub proof fn lemma_sort_of_permutation<T>(
    u: Seq<T>,
    v: Seq<T>,
    after: spec_fn(T, T) -> bool,
    items: Set<T>,
)
    requires
        within(v, items),
        weak_order_on(items, after),
        tells_apart(items, after),
        u.to_multiset() == v.to_multiset(),
    ensures
        stable_sort(u, after) == stable_sort(v, after),
{
    lemma_within_of_permutation(u, v, items);
    lemma_sort_orders(u, after, items);
    lemma_sort_orders(v, after, items);
    lemma_sort_permutes(u, after);
    lemma_sort_permutes(v, after);
    lemma_ordered_unique(stable_sort(u, after), stable_sort(v, after), after, items);
}

} // verus!
