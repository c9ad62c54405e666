//! Lists: turned round, and what is picked from them.

use vstd::prelude::*;

verus! {

/// The items of a list, last first, so that taking from the end gives them in their order.
pub fn reversed<T>(items: Vec<T>) -> (result: Vec<T>)
    ensures
        result@.len() == items@.len(),
        forall|j: int|
            0 <= j < result@.len() ==> #[trigger] result@[j] == items@[items@.len() - 1 - j],
{
    let mut remaining = items;
    let mut result: Vec<T> = Vec::new();
    while remaining.len() > 0
        invariant
            remaining@.len() + result@.len() == items@.len(),
            remaining@ == items@.subrange(0, remaining@.len() as int),
            forall|j: int|
                0 <= j < result@.len() ==> #[trigger] result@[j] == items@[items@.len() - 1 - j],
        decreases remaining@.len(),
    {
        if let Some(item) = remaining.pop() {
            result.push(item);
            assert(remaining@ =~= items@.subrange(0, remaining@.len() as int));
        }
    }
    result
}

/// One thing or none, as a list.
pub open spec fn at_most_one<T>(item: Option<T>) -> Seq<T> {
    match item {
        Some(item) => seq![item],
        None => Seq::empty(),
    }
}

/// What is made of the items of a list, in their order, leaving out those of which nothing is
/// made.
pub open spec fn picked<W, T>(items: Seq<W>, make: spec_fn(W) -> Option<T>) -> Seq<T>
    decreases items.len(),
{
    if items.len() == 0 {
        Seq::empty()
    } else {
        picked(items.drop_last(), make) + at_most_one(make(items.last()))
    }
}

/// Picking from one item more.
pub proof fn picked_step<W, T>(items: Seq<W>, i: int, make: spec_fn(W) -> Option<T>)
    requires
        0 <= i < items.len(),
    ensures
        picked(items.subrange(0, i + 1), make) == picked(items.subrange(0, i), make)
            + at_most_one(make(items[i])),
{
    let more = items.subrange(0, i + 1);
    assert(more.drop_last() =~= items.subrange(0, i));
    assert(more.last() == items[i]);
}

/// Picking from no item, and from all.
pub proof fn picked_ends<W, T>(items: Seq<W>, make: spec_fn(W) -> Option<T>)
    ensures
        picked(items.subrange(0, 0), make) == Seq::<T>::empty(),
        picked(items.subrange(0, items.len() as int), make) == picked(items, make),
{
    assert(items.subrange(0, items.len() as int) =~= items);
}

/// What is picked from a list is what is made of one of its items.
pub proof fn picked_contains<W, T>(items: Seq<W>, make: spec_fn(W) -> Option<T>, found: T)
    ensures
        picked(items, make).contains(found) <==> exists|i: int|
            0 <= i < items.len() && make(#[trigger] items[i]) == Some(found),
    decreases items.len(),
{
    if items.len() > 0 {
        let less = items.drop_last();
        let before = picked(less, make);
        let all = picked(items, make);
        picked_contains(less, make, found);
        if all.contains(found) {
            let k = choose|k: int| 0 <= k < all.len() && all[k] == found;
            if k < before.len() {
                assert(before[k] == found);
                assert(before.contains(found));
                let i = choose|i: int|
                    0 <= i < less.len() && make(#[trigger] less[i]) == Some(found);
                assert(make(items[i]) == Some(found));
            } else {
                assert(make(items[items.len() - 1]) == Some(found));
            }
        }
        if exists|i: int| 0 <= i < items.len() && make(#[trigger] items[i]) == Some(found) {
            let i = choose|i: int|
                0 <= i < items.len() && make(#[trigger] items[i]) == Some(found);
            if i < less.len() {
                assert(make(less[i]) == Some(found));
                let k = choose|k: int| 0 <= k < before.len() && before[k] == found;
                assert(all[k] == found);
            } else {
                assert(all[before.len() as int] == found);
            }
        }
    }
}

} // verus!
