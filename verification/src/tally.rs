//! Sums over sequences, and how they follow the items that come and go.

use vstd::prelude::*;

verus! {

/// The weights of all `items`, added up.
pub open spec fn sum<T>(items: Seq<T>, weight: spec_fn(T) -> nat) -> nat
    decreases items.len(),
{
    if items.len() == 0 {
        0
    } else {
        sum(items.drop_last(), weight) + weight(items.last())
    }
}

/// An item added at the end adds its weight.
pub proof fn lemma_sum_push<T>(items: Seq<T>, item: T, weight: spec_fn(T) -> nat)
    ensures
        sum(items.push(item), weight) == sum(items, weight) + weight(item),
{
    assert(items.push(item).drop_last() =~= items);
}

/// An item taken out takes its weight with it.
pub proof fn lemma_sum_remove<T>(items: Seq<T>, i: int, weight: spec_fn(T) -> nat)
    requires
        0 <= i < items.len(),
    ensures
        sum(items, weight) == sum(items.remove(i), weight) + weight(items[i]),
    decreases items.len(),
{
    if i == items.len() - 1 {
        assert(items.remove(i) =~= items.drop_last());
    } else {
        lemma_sum_remove(items.drop_last(), i, weight);
        assert(items.remove(i).drop_last() =~= items.drop_last().remove(i));
        assert(items.remove(i).last() == items.last());
    }
}

/// An item put in the place of another changes the sum by what their weights
/// differ.
pub proof fn lemma_sum_update<T>(items: Seq<T>, i: int, item: T, weight: spec_fn(T) -> nat)
    requires
        0 <= i < items.len(),
    ensures
        sum(items.update(i, item), weight) + weight(items[i]) == sum(items, weight) + weight(item),
{
    assert(items.update(i, item).remove(i) =~= items.remove(i));
    lemma_sum_remove(items, i, weight);
    lemma_sum_remove(items.update(i, item), i, weight);
}

/// The sum does not depend on the order of the items.
pub proof fn lemma_sum_same_items<T>(a: Seq<T>, b: Seq<T>, weight: spec_fn(T) -> nat)
    requires
        a.to_multiset() == b.to_multiset(),
    ensures
        sum(a, weight) == sum(b, weight),
    decreases a.len(),
{
    broadcast use vstd::seq_lib::group_to_multiset_ensures;

    if a.len() == 0 {
        assert(b.to_multiset().len() == 0);
        assert(b.len() == 0);
    } else {
        let item = a.last();
        let last = a.len() - 1;
        assert(a.contains(item));
        assert(b.to_multiset().count(item) > 0);
        assert(b.contains(item));
        let j = choose|j: int| 0 <= j < b.len() && b[j] == item;
        vstd::seq_lib::to_multiset_remove(a, last);
        vstd::seq_lib::to_multiset_remove(b, j);
        assert(a.remove(last) =~= a.drop_last());
        lemma_sum_same_items(a.drop_last(), b.remove(j), weight);
        lemma_sum_remove(b, j, weight);
    }
}

/// Where `b` holds the items of `a` and `item` besides, its sum is that of `a`
/// and the weight of `item`.
pub proof fn lemma_sum_inserted<T>(a: Seq<T>, b: Seq<T>, item: T, weight: spec_fn(T) -> nat)
    requires
        b.to_multiset() == a.to_multiset().insert(item),
    ensures
        sum(b, weight) == sum(a, weight) + weight(item),
{
    broadcast use vstd::seq_lib::group_to_multiset_ensures;

    vstd::seq_lib::to_multiset_build(a, item);
    lemma_sum_same_items(b, a.push(item), weight);
    lemma_sum_push(a, item, weight);
}

/// Where `b` holds the items of `a` but for one `item`, its sum is that of `a`
/// less the weight of `item`.
pub proof fn lemma_sum_removed<T>(a: Seq<T>, b: Seq<T>, item: T, weight: spec_fn(T) -> nat)
    requires
        a.to_multiset().contains(item),
        b.to_multiset() == a.to_multiset().remove(item),
    ensures
        sum(a, weight) == sum(b, weight) + weight(item),
{
    broadcast use vstd::seq_lib::group_to_multiset_ensures;

    assert(a.contains(item));
    let j = choose|j: int| 0 <= j < a.len() && a[j] == item;
    vstd::seq_lib::to_multiset_remove(a, j);
    lemma_sum_same_items(b, a.remove(j), weight);
    lemma_sum_remove(a, j, weight);
}

} // verus!
