//! Views of strings inside containers, and finding a key in a sequence.

use vstd::prelude::*;

verus! {

/// The contents of each string of `items`, in order.
pub open spec fn texts(items: Seq<String>) -> Seq<Seq<char>> {
    Seq::new(items.len(), |i: int| items[i]@)
}

/// The contents of the string in `item`, if there is one.
pub open spec fn opt_text(item: Option<String>) -> Option<Seq<char>> {
    match item {
        Some(s) => Some(s@),
        None => None,
    }
}

/// The position of the first item of `items` that equals `wanted`, or the
/// length of `items` if none does.
pub open spec fn first_index<T>(items: Seq<T>, wanted: T) -> int
    decreases items.len(),
{
    if items.len() == 0 || items.first() == wanted {
        0
    } else {
        1 + first_index(items.drop_first(), wanted)
    }
}

/// `first_index` lies within the sequence or just behind it, points at
/// `wanted` when it lies within, and passes over nothing equal to `wanted`.
pub proof fn lemma_first_index<T>(items: Seq<T>, wanted: T)
    ensures
        0 <= first_index(items, wanted) <= items.len(),
        first_index(items, wanted) < items.len() ==> items[first_index(items, wanted)] == wanted,
        forall|j: int| 0 <= j < first_index(items, wanted) ==> items[j] != wanted,
    decreases items.len(),
{
    if items.len() == 0 || items.first() == wanted {
    } else {
        let rest = items.drop_first();
        lemma_first_index(rest, wanted);
        assert forall|j: int| 0 <= j < first_index(items, wanted) implies items[j] != wanted by {
            if j > 0 {
                assert(rest[j - 1] == items[j]);
            }
        }
    }
}

/// A position that nothing equal to `wanted` precedes, and that holds
/// `wanted` unless it is the end, is the `first_index`.
pub proof fn lemma_first_index_found<T>(items: Seq<T>, wanted: T, at: int)
    requires
        0 <= at <= items.len(),
        forall|j: int| 0 <= j < at ==> items[j] != wanted,
        at < items.len() ==> items[at] == wanted,
    ensures
        first_index(items, wanted) == at,
{
    lemma_first_index(items, wanted);
    let found = first_index(items, wanted);
    if found < at {
        assert(items[found] == wanted);
    } else if found > at {
        assert(items[at] == wanted);
    }
}

} // verus!
