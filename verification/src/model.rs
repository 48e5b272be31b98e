//! The list as a mathematical sequence, and what each operation makes of it.
//!
//! Position 0 of the sequence is the head of the list. The contracts of the
//! executable operations are stated over these functions.
use vstd::prelude::*;

verus! {

/// The element at `idx`, if the list is that long.
pub open spec fn spec_get<T>(list: Seq<T>, idx: int) -> Option<T> {
    if 0 <= idx < list.len() {
        Some(list[idx])
    } else {
        None
    }
}

/// The first element, if there is one.
pub open spec fn spec_head<T>(list: Seq<T>) -> Option<T> {
    spec_get(list, 0)
}

/// The list with `elem` put in front of it.
pub open spec fn spec_push<T>(list: Seq<T>, elem: T) -> Seq<T> {
    seq![elem] + list
}

/// The first element and what follows it; nothing and the list itself where
/// the list is empty.
pub open spec fn spec_pop<T>(list: Seq<T>) -> (Option<T>, Seq<T>) {
    if list.len() == 0 {
        (None, list)
    } else {
        (Some(list.first()), list.drop_first())
    }
}

/// The last element and what stands before it; nothing and the list itself
/// where the list is empty.
pub open spec fn spec_pop_back<T>(list: Seq<T>) -> (Option<T>, Seq<T>) {
    if list.len() == 0 {
        (None, list)
    } else {
        (Some(list.last()), list.drop_last())
    }
}

/// The list with `elem` at position `idx`: what stood at `idx` or later
/// stands one place further back.
pub open spec fn spec_insert<T>(list: Seq<T>, idx: int, elem: T) -> Seq<T>
    recommends
        0 <= idx <= list.len(),
{
    list.insert(idx, elem)
}

/// The element at `idx`, and the list without it: what stood behind `idx`
/// stands one place further to the front.
pub open spec fn spec_remove<T>(list: Seq<T>, idx: int) -> (T, Seq<T>)
    recommends
        0 <= idx < list.len(),
{
    (list[idx], list.remove(idx))
}

/// The list with the element at `idx` replaced by `value`.
pub open spec fn spec_set<T>(list: Seq<T>, idx: int, value: T) -> Seq<T>
    recommends
        0 <= idx < list.len(),
{
    list.update(idx, value)
}

/// The elements that a walk hands out when it is asked from the front until
/// none remains, in the order in which it hands them out.
pub open spec fn spec_forward<T>(remaining: Seq<T>) -> Seq<T>
    decreases remaining.len(),
{
    if remaining.len() == 0 {
        Seq::empty()
    } else {
        seq![spec_pop(remaining).0->0] + spec_forward(spec_pop(remaining).1)
    }
}

/// The elements that a walk hands out when it is asked from the back until
/// none remains, in the order in which it hands them out.
pub open spec fn spec_backward<T>(remaining: Seq<T>) -> Seq<T>
    decreases remaining.len(),
{
    if remaining.len() == 0 {
        Seq::empty()
    } else {
        seq![spec_pop_back(remaining).0->0] + spec_backward(spec_pop_back(remaining).1)
    }
}

} // verus!
