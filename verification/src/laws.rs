//! What holds of the list operations taken together.
//!
//! The lemmas speak of the sequences and functions of [`crate::model`], over
//! which the contracts of the operations are stated.
use crate::model::{
    spec_backward, spec_forward, spec_get, spec_head, spec_insert, spec_pop, spec_pop_back,
    spec_push, spec_remove, spec_set,
};
use vstd::prelude::*;

verus! {

/// A pushed element is the new head: the list is one longer, and every other
/// element stands one place further back.
pub proof fn lemma_push_shifts<T>(list: Seq<T>, elem: T)
    ensures
        spec_push(list, elem).len() == list.len() + 1,
        spec_get(spec_push(list, elem), 0) == Some(elem),
        forall|i: int|
            0 <= i < list.len() ==> spec_get(spec_push(list, elem), i + 1) == #[trigger] spec_get(
                list,
                i,
            ),
{
}

/// Popping a list that is not empty gives its head and a rest that is one
/// shorter; pushing the head back gives the list again.
pub proof fn lemma_pop_gives_head<T>(list: Seq<T>)
    requires
        list.len() > 0,
    ensures
        spec_pop(list).0 is Some,
        spec_pop(list).0 == spec_head(list),
        spec_pop(list).1.len() == list.len() - 1,
        spec_push(spec_pop(list).1, spec_pop(list).0->0) == list,
{
}

/// Popping undoes a push.
pub proof fn lemma_pop_undoes_push<T>(list: Seq<T>, elem: T)
    ensures
        spec_pop(spec_push(list, elem)) == (Some(elem), list),
{
}

/// Removing at the position of an insertion gives back the inserted element
/// and the list as it was.
pub proof fn lemma_remove_undoes_insert<T>(list: Seq<T>, idx: int, elem: T)
    requires
        0 <= idx <= list.len(),
    ensures
        spec_remove(spec_insert(list, idx, elem), idx) == (elem, list),
{
}

/// An inserted element stands at its position: the list is one longer, the
/// elements before the position stay, and the others stand one place further
/// back.
pub proof fn lemma_insert_shifts<T>(list: Seq<T>, idx: int, elem: T)
    requires
        0 <= idx <= list.len(),
    ensures
        spec_insert(list, idx, elem).len() == list.len() + 1,
        spec_get(spec_insert(list, idx, elem), idx) == Some(elem),
        forall|i: int|
            0 <= i < idx ==> spec_get(spec_insert(list, idx, elem), i) == #[trigger] spec_get(
                list,
                i,
            ),
        forall|i: int|
            idx <= i < list.len() ==> spec_get(spec_insert(list, idx, elem), i + 1)
                == #[trigger] spec_get(list, i),
        idx == 0 ==> spec_insert(list, idx, elem) == spec_push(list, elem),
{
}

/// A removed element leaves a list that is one shorter: the elements before
/// the position stay, and the others stand one place further to the front.
/// Removing the head is popping.
pub proof fn lemma_remove_shifts<T>(list: Seq<T>, idx: int)
    requires
        0 <= idx < list.len(),
    ensures
        Some(spec_remove(list, idx).0) == spec_get(list, idx),
        spec_remove(list, idx).1.len() == list.len() - 1,
        forall|i: int|
            0 <= i < idx ==> #[trigger] spec_get(spec_remove(list, idx).1, i) == spec_get(list, i),
        forall|i: int|
            idx <= i < list.len() - 1 ==> #[trigger] spec_get(spec_remove(list, idx).1, i)
                == spec_get(list, i + 1),
        idx == 0 ==> (Some(spec_remove(list, idx).0), spec_remove(list, idx).1) == spec_pop(list),
{
}

/// A walk from the front hands out the elements in the order of the list,
/// each of them once.
pub proof fn lemma_forward_in_order<T>(remaining: Seq<T>)
    ensures
        spec_forward(remaining) == remaining,
        spec_forward(remaining).len() == remaining.len(),
    decreases remaining.len(),
{
    if remaining.len() > 0 {
        lemma_forward_in_order(remaining.drop_first());
    }
}

/// A walk from the back hands out the elements in the reverse of the order
/// of the list, each of them once.
pub proof fn lemma_backward_in_reverse<T>(remaining: Seq<T>)
    ensures
        spec_backward(remaining) == remaining.reverse(),
        spec_backward(remaining).len() == remaining.len(),
    decreases remaining.len(),
{
    if remaining.len() > 0 {
        lemma_backward_in_reverse(remaining.drop_last());
    }
}

/// After a write to a position the list holds the written value there, and
/// what it held before everywhere else.
pub proof fn lemma_set_then_get<T>(list: Seq<T>, idx: int, value: T)
    requires
        0 <= idx < list.len(),
    ensures
        spec_set(list, idx, value).len() == list.len(),
        spec_get(spec_set(list, idx, value), idx) == Some(value),
        forall|i: int|
            i != idx ==> #[trigger] spec_get(spec_set(list, idx, value), i) == spec_get(list, i),
{
}

} // verus!
