//! Walks over a list.
//!
//! A walk holds a list and two cursors, `front` and `back`. The elements at the
//! positions from `front` up to, not including, `back` are the ones that
//! remain. `next` hands out the first of them and `next_back` the last, until
//! none remains: to a walk, either is a pop from its remaining elements. A
//! walk cannot be started again.
//!
//! Each step finds its element from the head of the list, so a step costs as
//! many moves as the position it reaches.
use crate::model::{spec_pop, spec_pop_back, spec_set};
use crate::LinkedList;
use vstd::prelude::*;

verus! {

/// Takes the value out of `slot` and leaves a default value in its place.
fn take<T: Default>(slot: &mut T) -> (value: T)
    ensures
        value == *old(slot),
        T::default.ensures((), *final(slot)),
{
    let mut value = T::default();
    core::mem::swap(&mut value, slot);
    value
}

/// A walk that hands out the elements of a borrowed list by reference.
pub struct ListIter<'a, L>(
    /// The list that is walked over.
    pub &'a L,
    /// The position of the first element that remains.
    pub usize,
    /// The position behind the last element that remains.
    pub usize,
);

/// A walk that hands out the places of the elements of a borrowed list.
///
/// A place is lent for as long as the caller holds it; the walk goes on when
/// it has been given back.
pub struct ListIterMut<'a, L>(
    /// The list that is walked over.
    pub &'a mut L,
    /// The position of the first element that remains.
    pub usize,
    /// The position behind the last element that remains.
    pub usize,
);

/// A walk that owns its list and hands out the elements by value.
pub struct ListIterOwned<L>(
    /// The list that is walked over. The places of the elements that were
    /// handed out hold default values.
    pub Box<L>,
    /// The position of the first element that remains.
    pub usize,
    /// The position behind the last element that remains.
    pub usize,
);

impl<'a, L> ListIter<'a, L> {
    /// The list that is walked over.
    pub open spec fn list(&self) -> &'a L {
        self.0
    }

    /// The position of the first element that remains.
    pub open spec fn front(&self) -> nat {
        self.1 as nat
    }

    /// The position behind the last element that remains.
    pub open spec fn back(&self) -> nat {
        self.2 as nat
    }
}

impl<'a, T, L: View<V = Seq<T>>> ListIter<'a, L> {
    /// The cursors have not crossed and lie within the list.
    pub open spec fn wf(&self) -> bool {
        self.front() <= self.back() <= self.list()@.len()
    }

    /// The elements that the walk has yet to hand out, in the order of the
    /// list.
    pub open spec fn remaining(&self) -> Seq<T> {
        self.list()@.subrange(self.front() as int, self.back() as int)
    }
}

impl<'a, L: LinkedList> ListIter<'a, L> {
    /// Hands out the first element that remains, or `None` where none does.
    pub fn next(&mut self) -> (r: Option<&'a L::Item>)
        requires
            old(self).wf(),
        ensures
            final(self).wf(),
            final(self).list() == old(self).list(),
            final(self).back() == old(self).back(),
            final(self).front() == old(self).front() + (if r is Some { 1nat } else { 0nat }),
            match r {
                Some(item) => spec_pop(old(self).remaining()) == (
                    Some(*item),
                    final(self).remaining(),
                ),
                None => spec_pop(old(self).remaining()) == (
                    None::<L::Item>,
                    final(self).remaining(),
                ),
            },
    {
        if self.1 == self.2 {
            return None;
        }
        let res = self.0.get(self.1);
        self.1 += 1;
        res
    }

    /// Hands out the last element that remains, or `None` where none does.
    pub fn next_back(&mut self) -> (r: Option<&'a L::Item>)
        requires
            old(self).wf(),
        ensures
            final(self).wf(),
            final(self).list() == old(self).list(),
            final(self).front() == old(self).front(),
            final(self).back() == old(self).back() - (if r is Some { 1nat } else { 0nat }),
            match r {
                Some(item) => spec_pop_back(old(self).remaining()) == (
                    Some(*item),
                    final(self).remaining(),
                ),
                None => spec_pop_back(old(self).remaining()) == (
                    None::<L::Item>,
                    final(self).remaining(),
                ),
            },
    {
        if self.1 == self.2 {
            return None;
        }
        self.2 -= 1;
        self.0.get(self.2)
    }

    /// The number of elements that remain.
    pub fn len(&self) -> (n: usize)
        requires
            self.wf(),
        ensures
            n == self.remaining().len(),
            n == self.back() - self.front(),
    {
        self.2 - self.1
    }
}

impl<'a, L> ListIterMut<'a, L> {
    /// The list that is walked over, as it stands now.
    pub open spec fn list(&self) -> L {
        *self.0
    }

    /// The position of the first element that remains.
    pub open spec fn front(&self) -> nat {
        self.1 as nat
    }

    /// The position behind the last element that remains.
    pub open spec fn back(&self) -> nat {
        self.2 as nat
    }
}

impl<'a, T, L: View<V = Seq<T>>> ListIterMut<'a, L> {
    /// The cursors have not crossed and lie within the list.
    pub open spec fn wf(&self) -> bool {
        self.front() <= self.back() <= self.list()@.len()
    }

    /// The elements whose places the walk has yet to hand out, in the order
    /// of the list.
    pub open spec fn remaining(&self) -> Seq<T> {
        self.list()@.subrange(self.front() as int, self.back() as int)
    }
}

impl<'a, L: LinkedList> ListIterMut<'a, L> {
    /// Hands out the place of the first element that remains, or `None` where
    /// none does. What is written to the place is the list's new element
    /// there; the elements that remain are untouched.
    pub fn next(&mut self) -> (r: Option<&mut L::Item>)
        requires
            old(self).wf(),
        ensures
            final(self).wf(),
            // The walk still writes to the list that it borrowed.
            *final(final(self).0) == *final(old(self).0),
            final(self).back() == old(self).back(),
            final(self).front() == old(self).front() + (if r is Some { 1nat } else { 0nat }),
            match r {
                Some(slot) => spec_pop(old(self).remaining()) == (
                    Some(*slot),
                    final(self).remaining(),
                ) && final(self).list()@ == spec_set(
                    old(self).list()@,
                    old(self).front() as int,
                    *final(slot),
                ),
                None => spec_pop(old(self).remaining()) == (
                    None::<L::Item>,
                    final(self).remaining(),
                ) && final(self).list() == old(self).list(),
            },
    {
        if self.1 == self.2 {
            return None;
        }
        self.1 += 1;
        self.0.get_mut(self.1 - 1)
    }

    /// Hands out the place of the last element that remains, or `None` where
    /// none does. What is written to the place is the list's new element
    /// there; the elements that remain are untouched.
    pub fn next_back(&mut self) -> (r: Option<&mut L::Item>)
        requires
            old(self).wf(),
        ensures
            final(self).wf(),
            // The walk still writes to the list that it borrowed.
            *final(final(self).0) == *final(old(self).0),
            final(self).front() == old(self).front(),
            final(self).back() == old(self).back() - (if r is Some { 1nat } else { 0nat }),
            match r {
                Some(slot) => spec_pop_back(old(self).remaining()) == (
                    Some(*slot),
                    final(self).remaining(),
                ) && final(self).list()@ == spec_set(
                    old(self).list()@,
                    final(self).back() as int,
                    *final(slot),
                ),
                None => spec_pop_back(old(self).remaining()) == (
                    None::<L::Item>,
                    final(self).remaining(),
                ) && final(self).list() == old(self).list(),
            },
    {
        if self.1 == self.2 {
            return None;
        }
        self.2 -= 1;
        self.0.get_mut(self.2)
    }

    /// The number of elements that remain.
    pub fn len(&self) -> (n: usize)
        requires
            self.wf(),
        ensures
            n == self.remaining().len(),
            n == self.back() - self.front(),
    {
        self.2 - self.1
    }
}

impl<L> ListIterOwned<L> {
    /// The list that is walked over, as it stands now. The places of the
    /// elements that were handed out hold default values.
    pub open spec fn list(&self) -> L {
        *self.0
    }

    /// The position of the first element that remains.
    pub open spec fn front(&self) -> nat {
        self.1 as nat
    }

    /// The position behind the last element that remains.
    pub open spec fn back(&self) -> nat {
        self.2 as nat
    }
}

impl<T, L: View<V = Seq<T>>> ListIterOwned<L> {
    /// The cursors have not crossed and lie within the list.
    pub open spec fn wf(&self) -> bool {
        self.front() <= self.back() <= self.list()@.len()
    }

    /// The elements that the walk has yet to hand out, in the order of the
    /// list.
    pub open spec fn remaining(&self) -> Seq<T> {
        self.list()@.subrange(self.front() as int, self.back() as int)
    }
}

impl<L: LinkedList> ListIterOwned<L> {
    /// Hands out the first element that remains, or `None` where none does.
    /// A default value takes its place in the list.
    pub fn next(&mut self) -> (r: Option<L::Item>)
        requires
            old(self).wf(),
        ensures
            final(self).wf(),
            final(self).back() == old(self).back(),
            final(self).front() == old(self).front() + (if r is Some { 1nat } else { 0nat }),
            spec_pop(old(self).remaining()) == (r, final(self).remaining()),
            match r {
                Some(_) => final(self).list()@ == spec_set(
                    old(self).list()@,
                    old(self).front() as int,
                    final(self).list()@[old(self).front() as int],
                ) && L::Item::default.ensures((), final(self).list()@[old(self).front() as int]),
                None => final(self).list() == old(self).list(),
            },
    {
        if self.1 == self.2 {
            return None;
        }
        self.1 += 1;
        Some(take(self.0.get_mut(self.1 - 1)?))
    }

    /// Hands out the last element that remains, or `None` where none does.
    /// A default value takes its place in the list.
    pub fn next_back(&mut self) -> (r: Option<L::Item>)
        requires
            old(self).wf(),
        ensures
            final(self).wf(),
            final(self).front() == old(self).front(),
            final(self).back() == old(self).back() - (if r is Some { 1nat } else { 0nat }),
            spec_pop_back(old(self).remaining()) == (r, final(self).remaining()),
            match r {
                Some(_) => final(self).list()@ == spec_set(
                    old(self).list()@,
                    final(self).back() as int,
                    final(self).list()@[final(self).back() as int],
                ) && L::Item::default.ensures((), final(self).list()@[final(self).back() as int]),
                None => final(self).list() == old(self).list(),
            },
    {
        if self.1 == self.2 {
            return None;
        }
        self.2 -= 1;
        Some(take(self.0.get_mut(self.2)?))
    }

    /// The number of elements that remain.
    pub fn len(&self) -> (n: usize)
        requires
            self.wf(),
        ensures
            n == self.remaining().len(),
            n == self.back() - self.front(),
    {
        self.2 - self.1
    }
}

} // verus!
