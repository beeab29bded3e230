//! Finding the first occurrence of an item in a list.

use vstd::prelude::*;

verus! {

/// `i` is the least index at which `item` stands in `items`.
pub open spec fn is_first_index<A>(items: Seq<A>, item: A, i: int) -> bool {
    &&& 0 <= i < items.len()
    &&& items[i] == item
    &&& forall|j: int| 0 <= j < i ==> items[j] != item
}

/// The least index at which `item` stands in `items`, if it stands there at all.
pub open spec fn first_index<A>(items: Seq<A>, item: A) -> Option<int> {
    if exists|i: int| is_first_index(items, item, i) {
        Some(choose|i: int| is_first_index(items, item, i))
    } else {
        None
    }
}

/// An item has at most one least index, and `first_index` finds it.
pub proof fn lemma_first_index_found<A>(items: Seq<A>, item: A, i: int)
    requires
        is_first_index(items, item, i),
    ensures
        first_index(items, item) == Some(i),
{
    let c = choose|c: int| is_first_index(items, item, c);
    if c < i {
        assert(items[c] != item);
    } else if i < c {
        assert(items[i] != item);
    }
}

/// An item that stands nowhere has no least index.
pub proof fn lemma_first_index_absent<A>(items: Seq<A>, item: A)
    requires
        forall|j: int| 0 <= j < items.len() ==> items[j] != item,
    ensures
        first_index(items, item) is None,
{
}

/// What `first_index` says when it finds something.
pub proof fn lemma_first_index_is_first<A>(items: Seq<A>, item: A)
    requires
        first_index(items, item) is Some,
    ensures
        is_first_index(items, item, first_index(items, item)->0),
{
}

/// An item that stands at `at` has a least index, which is no later.
pub proof fn lemma_first_index_exists<A>(items: Seq<A>, item: A, at: int)
    requires
        0 <= at < items.len(),
        items[at] == item,
    ensures
        first_index(items, item) is Some,
        first_index(items, item)->0 <= at,
    decreases at,
{
    if forall|j: int| 0 <= j < at ==> items[j] != item {
        lemma_first_index_found(items, item, at);
    } else {
        let j = choose|j: int| 0 <= j < at && items[j] == item;
        lemma_first_index_exists(items, item, j);
    }
}

/// Where `first_index` finds nothing, the item stands nowhere.
pub proof fn lemma_first_index_none<A>(items: Seq<A>, item: A)
    requires
        first_index(items, item) is None,
    ensures
        forall|j: int| 0 <= j < items.len() ==> items[j] != item,
{
    assert forall|j: int| 0 <= j < items.len() implies items[j] != item by {
        if items[j] == item {
            lemma_first_index_exists(items, item, j);
        }
    }
}

/// Appending an item that stands nowhere yet: it is found at the end, and every
/// other item where it was.
pub proof fn lemma_first_index_push<A>(items: Seq<A>, item: A, other: A)
    requires
        first_index(items, item) is None,
    ensures
        first_index(items.push(item), other) == if other == item {
            Some(items.len() as int)
        } else {
            first_index(items, other)
        },
{
    let longer = items.push(item);
    lemma_first_index_none(items, item);
    if other == item {
        assert(is_first_index(longer, item, items.len() as int));
        lemma_first_index_found(longer, item, items.len() as int);
    } else {
        match first_index(items, other) {
            Some(k) => {
                lemma_first_index_is_first(items, other);
                assert(is_first_index(longer, other, k));
                lemma_first_index_found(longer, other, k);
            },
            None => {
                lemma_first_index_none(items, other);
                lemma_first_index_absent(longer, other);
            },
        }
    }
}

} // verus!
