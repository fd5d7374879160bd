//! Sequences and conditions: the first item that meets one, and the items
//! that a filter keeps.

use vstd::prelude::*;

verus! {

/// The position of the first item that is wanted; the length of the
/// sequence if none is.
pub open spec fn first_index<A>(items: Seq<A>, wanted: spec_fn(A) -> bool) -> nat
    decreases items.len(),
{
    if items.len() == 0 || wanted(items[0]) {
        0
    } else {
        1 + first_index(items.drop_first(), wanted)
    }
}

/// Whether `at` is where the first wanted item stands: nothing before it is
/// wanted, and it is the end of the sequence or the place of a wanted item.
pub open spec fn is_first_index<A>(items: Seq<A>, wanted: spec_fn(A) -> bool, at: int) -> bool {
    &&& 0 <= at <= items.len()
    &&& forall|i: int| 0 <= i < at ==> !wanted(#[trigger] items[i])
    &&& at < items.len() ==> wanted(items[at])
}

/// `first_index` is where the first wanted item stands.
pub proof fn lemma_first_index<A>(items: Seq<A>, wanted: spec_fn(A) -> bool)
    ensures
        is_first_index(items, wanted, first_index(items, wanted) as int),
    decreases items.len(),
{
    if items.len() == 0 || wanted(items[0]) {
    } else {
        let rest = items.drop_first();
        lemma_first_index(rest, wanted);
        let at = first_index(items, wanted) as int;
        assert forall|i: int| 0 <= i < at implies !wanted(#[trigger] items[i]) by {
            if i > 0 {
                assert(items[i] == rest[i - 1]);
            }
        }
        if at < items.len() {
            assert(items[at] == rest[at - 1]);
        }
    }
}

/// Only `first_index` is where the first wanted item stands.
pub proof fn lemma_first_index_unique<A>(items: Seq<A>, wanted: spec_fn(A) -> bool, at: int)
    requires
        is_first_index(items, wanted, at),
    ensures
        first_index(items, wanted) == at,
{
    lemma_first_index(items, wanted);
    let found = first_index(items, wanted) as int;
    if found < at {
        assert(wanted(items[found]));
    } else if at < found {
        assert(wanted(items[at]));
    }
}

/// A filter keeps a sequence as it is where every item meets the condition.
pub proof fn lemma_filter_keeps_all<A>(items: Seq<A>, wanted: spec_fn(A) -> bool)
    requires
        forall|i: int| 0 <= i < items.len() ==> wanted(#[trigger] items[i]),
    ensures
        items.filter(wanted) == items,
    decreases items.len(),
{
    reveal(Seq::filter);
    if items.len() > 0 {
        lemma_filter_keeps_all(items.drop_last(), wanted);
        assert(items.drop_last().push(items.last()) =~= items);
    }
}

} // verus!
