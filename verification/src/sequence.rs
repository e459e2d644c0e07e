//! Two notions on sequences that the contracts share: the first item with a
//! property, and a map that stops at the first failure.

use vstd::prelude::*;

verus! {

/// Whether `i` is the least index at which `pred` holds in `items`.
pub open spec fn is_first<T>(items: Seq<T>, pred: spec_fn(T) -> bool, i: int) -> bool {
    &&& 0 <= i < items.len()
    &&& pred(items[i])
    &&& forall|j: int| 0 <= j < i ==> !pred(#[trigger] items[j])
}

/// The least index at which `pred` holds in `items`, if there is one.
pub open spec fn first_index<T>(items: Seq<T>, pred: spec_fn(T) -> bool) -> Option<int> {
    if exists|i: int| is_first(items, pred, i) {
        Some(choose|i: int| is_first(items, pred, i))
    } else {
        None
    }
}

/// The results of `f` on the items, in order; where `f` fails on an item, the
/// failure of the first such item.
pub open spec fn try_each<T, U, E>(items: Seq<T>, f: spec_fn(T) -> Result<U, E>) -> Result<
    Seq<U>,
    E,
> {
    match first_index(items, |t: T| f(t) is Err) {
        Some(i) => Err(f(items[i])->Err_0),
        None => Ok(items.map_values(|t: T| f(t)->Ok_0)),
    }
}

/// The least index with the property is the one that `first_index` gives.
pub proof fn lemma_first_index_found<T>(items: Seq<T>, pred: spec_fn(T) -> bool, i: int)
    requires
        is_first(items, pred, i),
    ensures
        first_index(items, pred) == Some(i),
{
}

/// Where the property holds of no item, `first_index` gives nothing.
pub proof fn lemma_first_index_none<T>(items: Seq<T>, pred: spec_fn(T) -> bool)
    requires
        forall|j: int| 0 <= j < items.len() ==> !pred(#[trigger] items[j]),
    ensures
        first_index(items, pred) is None,
{
}

/// What `first_index` gives is either the least index with the property, or
/// nothing where no item has it.
pub proof fn lemma_first_index<T>(items: Seq<T>, pred: spec_fn(T) -> bool)
    ensures
        match first_index(items, pred) {
            Some(i) => is_first(items, pred, i),
            None => forall|j: int| 0 <= j < items.len() ==> !pred(#[trigger] items[j]),
        },
    decreases items.len(),
{
    if first_index(items, pred) is None {
        assert forall|j: int| 0 <= j < items.len() implies !pred(#[trigger] items[j]) by {
            if pred(items[j]) {
                lemma_least_exists(items, pred, j);
            }
        }
    }
}

proof fn lemma_least_exists<T>(items: Seq<T>, pred: spec_fn(T) -> bool, j: int)
    requires
        0 <= j < items.len(),
        pred(items[j]),
    ensures
        exists|i: int| is_first(items, pred, i),
    decreases j,
{
    if exists|k: int| 0 <= k < j && pred(#[trigger] items[k]) {
        let k: int = choose|k: int| 0 <= k < j && pred(#[trigger] items[k]);
        lemma_least_exists(items, pred, k);
    } else {
        assert(is_first(items, pred, j));
    }
}

/// `try_each` fails with the failure of the first item on which `f` fails.
pub proof fn lemma_try_each_fails<T, U, E>(items: Seq<T>, f: spec_fn(T) -> Result<U, E>, i: int)
    requires
        0 <= i < items.len(),
        f(items[i]) is Err,
        forall|j: int| 0 <= j < i ==> f(#[trigger] items[j]) is Ok,
    ensures
        try_each(items, f) == Err::<Seq<U>, E>(f(items[i])->Err_0),
{
    lemma_first_index_found(items, |t: T| f(t) is Err, i);
}

/// `try_each` gives every result where `f` fails on no item.
pub proof fn lemma_try_each_succeeds<T, U, E>(items: Seq<T>, f: spec_fn(T) -> Result<U, E>)
    requires
        forall|j: int| 0 <= j < items.len() ==> f(#[trigger] items[j]) is Ok,
    ensures
        try_each(items, f) == Ok::<Seq<U>, E>(items.map_values(|t: T| f(t)->Ok_0)),
{
    lemma_first_index_none(items, |t: T| f(t) is Err);
}

/// Where `try_each` succeeds, it holds the result of `f` on each item, at
/// the item's own index.
pub proof fn lemma_try_each_results<T, U, E>(items: Seq<T>, f: spec_fn(T) -> Result<U, E>)
    requires
        try_each(items, f) is Ok,
    ensures
        try_each(items, f)->Ok_0.len() == items.len(),
        forall|i: int|
            0 <= i < items.len() ==> f(#[trigger] items[i]) == Ok::<U, E>(
                try_each(items, f)->Ok_0[i],
            ),
{
    lemma_first_index(items, |t: T| f(t) is Err);
}

} // verus!
