//! Order by index: what it means for the children of a book to be in order,
//! and why that order does not depend on the order they arrived in.

use vstd::prelude::*;
use vstd::seq_lib::*;

verus! {

/// Whether the keys of `items` never go down.
pub open spec fn ascending<T>(items: Seq<T>, key: spec_fn(T) -> nat) -> bool {
    forall|i: int, j: int| 0 <= i < j < items.len() ==> key(items[i]) <= key(items[j])
}

/// Whether the keys of `items` go up at every step.
pub open spec fn strictly_ascending<T>(items: Seq<T>, key: spec_fn(T) -> nat) -> bool {
    forall|i: int, j: int| 0 <= i < j < items.len() ==> key(items[i]) < key(items[j])
}

/// Whether no two of `items` have the same key.
pub open spec fn distinct<T>(items: Seq<T>, key: spec_fn(T) -> nat) -> bool {
    forall|i: int, j: int| 0 <= i < j < items.len() ==> key(items[i]) != key(items[j])
}

/// Where an item with key `k` goes among `items`: behind the last one whose
/// key is not greater.
pub open spec fn slot<T>(items: Seq<T>, key: spec_fn(T) -> nat, k: nat) -> int
    decreases items.len(),
{
    if items.len() == 0 {
        0
    } else if key(items.last()) <= k {
        items.len() as int
    } else {
        slot(items.drop_last(), key, k)
    }
}

/// `items` in the order of their keys; items with the same key keep the
/// order they came in.
pub open spec fn ordered<T>(items: Seq<T>, key: spec_fn(T) -> nat) -> Seq<T>
    decreases items.len(),
{
    if items.len() == 0 {
        Seq::empty()
    } else {
        let rest = ordered(items.drop_last(), key);
        rest.insert(slot(rest, key, key(items.last())), items.last())
    }
}

/// The slot lies within the items; what stands before it has a key that is
/// not greater, and, in items that are in order, what stands from it on has
/// a greater one.
pub proof fn lemma_slot<T>(items: Seq<T>, key: spec_fn(T) -> nat, k: nat)
    ensures
        0 <= slot(items, key, k) <= items.len(),
        forall|i: int| slot(items, key, k) <= i < items.len() ==> key(#[trigger] items[i]) > k,
        ascending(items, key) ==> forall|i: int|
            0 <= i < slot(items, key, k) ==> key(#[trigger] items[i]) <= k,
    decreases items.len(),
{
    if items.len() > 0 && key(items.last()) > k {
        lemma_slot(items.drop_last(), key, k);
        if ascending(items, key) {
            assert(ascending(items.drop_last(), key)) by {
                assert forall|i: int, j: int| 0 <= i < j < items.drop_last().len() implies key(
                    items.drop_last()[i],
                ) <= key(items.drop_last()[j]) by {
                    assert(items.drop_last()[i] == items[i]);
                    assert(items.drop_last()[j] == items[j]);
                }
            }
        }
        assert forall|i: int| slot(items, key, k) <= i < items.len() implies key(
            #[trigger] items[i],
        ) > k by {
            if i < items.len() - 1 {
                assert(items.drop_last()[i] == items[i]);
            }
        }
        assert forall|i: int| ascending(items, key) && 0 <= i < slot(items, key, k) implies key(
            #[trigger] items[i],
        ) <= k by {
            assert(items.drop_last()[i] == items[i]);
        }
    } else if items.len() > 0 {
        assert forall|i: int| ascending(items, key) && 0 <= i < items.len() implies key(
            #[trigger] items[i],
        ) <= k by {
            if i < items.len() - 1 {
                assert(key(items[i]) <= key(items[items.len() - 1]));
            }
        }
    }
}

/// Putting an item into its slot keeps items in order.
pub proof fn lemma_insert_keeps_order<T>(items: Seq<T>, key: spec_fn(T) -> nat, item: T)
    requires
        ascending(items, key),
    ensures
        ascending(items.insert(slot(items, key, key(item)), item), key),
{
    let p = slot(items, key, key(item));
    lemma_slot(items, key, key(item));
    let out = items.insert(p, item);
    assert forall|i: int, j: int| 0 <= i < j < out.len() implies key(out[i]) <= key(out[j]) by {
        if i < p {
            assert(out[i] == items[i]);
        } else if i > p {
            assert(out[i] == items[i - 1]);
        }
        if j < p {
            assert(out[j] == items[j]);
        } else if j > p {
            assert(out[j] == items[j - 1]);
        }
    }
}

/// Ordering keeps every item, as often as it was there, and yields items in
/// order.
pub proof fn lemma_ordered<T>(items: Seq<T>, key: spec_fn(T) -> nat)
    ensures
        ordered(items, key).len() == items.len(),
        ordered(items, key).to_multiset() == items.to_multiset(),
        ascending(ordered(items, key), key),
    decreases items.len(),
{
    broadcast use vstd::multiset::group_multiset_axioms;

    if items.len() == 0 {
        assert(ordered(items, key) =~= items);
    } else {
        let rest = ordered(items.drop_last(), key);
        lemma_ordered(items.drop_last(), key);
        lemma_slot(rest, key, key(items.last()));
        lemma_insert_keeps_order(rest, key, items.last());
        to_multiset_insert(rest, slot(rest, key, key(items.last())), items.last());
        to_multiset_build(items.drop_last(), items.last());
        assert(items.drop_last().push(items.last()) =~= items);
    }
}

/// Two sequences with the same items whose keys go up at every step are the
/// same sequence.
pub proof fn lemma_strict_order_is_unique<T>(x: Seq<T>, y: Seq<T>, key: spec_fn(T) -> nat)
    requires
        strictly_ascending(x, key),
        strictly_ascending(y, key),
        x.to_multiset() == y.to_multiset(),
    ensures
        x == y,
    decreases x.len(),
{
    broadcast use vstd::multiset::group_multiset_axioms;
    broadcast use group_to_multiset_ensures;

    x.to_multiset_ensures();
    y.to_multiset_ensures();
    assert(x.len() == y.len());
    if x.len() > 0 {
        assert(x.to_multiset().contains(x[0]));
        assert(y.to_multiset().contains(y[0]));
        assert(y.contains(x[0]));
        assert(x.contains(y[0]));
        let i = choose|i: int| 0 <= i < x.len() && x[i] == y[0];
        let j = choose|j: int| 0 <= j < y.len() && y[j] == x[0];
        if i > 0 {
            assert(key(x[0]) < key(x[i]));
            if j > 0 {
                assert(key(y[0]) < key(y[j]));
            }
            assert(false);
        }
        assert(x[0] == y[0]);
        to_multiset_remove(x, 0);
        to_multiset_remove(y, 0);
        assert(x.remove(0) =~= x.drop_first());
        assert(y.remove(0) =~= y.drop_first());
        assert(strictly_ascending(x.drop_first(), key)) by {
            assert forall|a: int, b: int| 0 <= a < b < x.drop_first().len() implies key(
                x.drop_first()[a],
            ) < key(x.drop_first()[b]) by {
                assert(x.drop_first()[a] == x[a + 1]);
                assert(x.drop_first()[b] == x[b + 1]);
            }
        }
        assert(strictly_ascending(y.drop_first(), key)) by {
            assert forall|a: int, b: int| 0 <= a < b < y.drop_first().len() implies key(
                y.drop_first()[a],
            ) < key(y.drop_first()[b]) by {
                assert(y.drop_first()[a] == y[a + 1]);
                assert(y.drop_first()[b] == y[b + 1]);
            }
        }
        lemma_strict_order_is_unique(x.drop_first(), y.drop_first(), key);
        assert(x =~= seq![x[0]] + x.drop_first());
        assert(y =~= seq![y[0]] + y.drop_first());
    } else {
        assert(x =~= y);
    }
}

/// Ordering does not bring two equal keys together where there were none.
pub proof fn lemma_ordered_distinct<T>(items: Seq<T>, key: spec_fn(T) -> nat)
    requires
        distinct(items, key),
    ensures
        strictly_ascending(ordered(items, key), key),
    decreases items.len(),
{
    broadcast use vstd::multiset::group_multiset_axioms;
    broadcast use group_to_multiset_ensures;

    lemma_ordered(items, key);
    if items.len() > 0 {
        let front = items.drop_last();
        let item = items.last();
        let rest = ordered(front, key);
        assert(distinct(front, key)) by {
            assert forall|i: int, j: int| 0 <= i < j < front.len() implies key(front[i]) != key(
                front[j],
            ) by {
                assert(front[i] == items[i]);
                assert(front[j] == items[j]);
            }
        }
        lemma_ordered_distinct(front, key);
        lemma_ordered(front, key);
        let p = slot(rest, key, key(item));
        lemma_slot(rest, key, key(item));
        let out = rest.insert(p, item);
        assert forall|i: int| 0 <= i < rest.len() implies key(#[trigger] rest[i]) != key(item) by {
            rest.to_multiset_ensures();
            front.to_multiset_ensures();
            assert(rest.to_multiset().contains(rest[i]));
            assert(front.contains(rest[i]));
            let j = choose|j: int| 0 <= j < front.len() && front[j] == rest[i];
            assert(front[j] == items[j]);
            assert(key(items[j]) != key(items[items.len() - 1]));
        }
        assert forall|i: int, j: int| 0 <= i < j < out.len() implies key(out[i]) < key(out[j]) by {
            if i < p {
                assert(out[i] == rest[i]);
            } else if i > p {
                assert(out[i] == rest[i - 1]);
            }
            if j < p {
                assert(out[j] == rest[j]);
            } else if j > p {
                assert(out[j] == rest[j - 1]);
            }
        }
    }
}

/// The order of items by their keys does not depend on the order they came
/// in: two arrangements of the same items, no two with the same key, are
/// ordered into the same sequence, whose keys go up at every step.
pub proof fn lemma_order_ignores_arrival<T>(a: Seq<T>, b: Seq<T>, key: spec_fn(T) -> nat)
    requires
        a.to_multiset() == b.to_multiset(),
        distinct(a, key),
        distinct(b, key),
    ensures
        ordered(a, key) == ordered(b, key),
        strictly_ascending(ordered(a, key), key),
{
    lemma_ordered(a, key);
    lemma_ordered(b, key);
    lemma_ordered_distinct(a, key);
    lemma_ordered_distinct(b, key);
    lemma_strict_order_is_unique(ordered(a, key), ordered(b, key), key);
}

} // verus!
