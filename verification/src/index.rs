//! Access to the elements of a list by position, in square brackets.
//!
//! [`Indexable`] wraps a reference to a list. The wrapper around a shared
//! reference reads an element; the wrapper around an exclusive reference
//! hands out the place of an element, to be written to. Both ask the caller
//! for a position that the list has.
use crate::model::{spec_get, spec_set};
use crate::LinkedList;
use std::marker::PhantomData;
use vstd::prelude::*;

verus! {

/// A reference `L` to a list of type `H`, to be indexed.
pub struct Indexable<L, H>(
    /// The reference to the list.
    pub L,
    /// The type of the list.
    pub PhantomData<H>,
);

/// A conversion into an [`Indexable`].
pub trait ToIndexable<L, H> {
    /// Wraps `self` for indexing.
    fn indexable(self) -> Indexable<L, H>;
}

impl<'a, L: LinkedList> ToIndexable<&'a L, L> for &'a L {
    /// The wrapper holds the very list that `self` refers to.
    fn indexable(self) -> (r: Indexable<&'a L, L>)
        ensures
            r.0 == self,
    {
        Indexable(self, PhantomData)
    }
}

impl<'a, L: LinkedList> ToIndexable<&'a mut L, L> for &'a mut L {
    /// The wrapper holds the very list that `self` refers to, and what is
    /// written through the wrapper is written to that list.
    fn indexable(self) -> (r: Indexable<&'a mut L, L>)
        ensures
            *r.0 == *old(self),
            *final(self) == *final(r.0),
    {
        Indexable(self, PhantomData)
    }
}

impl<'a, L: LinkedList> vstd::std_specs::core::IndexSpecImpl<usize> for Indexable<&'a L, L> {
    /// The list has an element at `index`.
    open spec fn index_req(&self, index: &usize) -> bool {
        *index < self.0@.len()
    }
}

impl<'a, L: LinkedList> core::ops::Index<usize> for Indexable<&'a L, L> {
    type Output = L::Item;

    /// The element at `index`: what `get` finds there.
    fn index(&self, index: usize) -> (r: &L::Item)
        ensures
            Some(*r) == spec_get(self.0@, index as int),
    {
        self.0.get(index).unwrap()
    }
}

impl<'a, L: LinkedList> vstd::std_specs::core::IndexSpecImpl<usize> for Indexable<&'a mut L, L> {
    /// The wrapper around an exclusive reference is there to be written
    /// through. No `index` may be read through it.
    open spec fn index_req(&self, index: &usize) -> bool {
        false
    }
}

impl<'a, L: LinkedList> core::ops::Index<usize> for Indexable<&'a mut L, L> {
    type Output = L::Item;

    /// Never entered: see `index_req`.
    fn index(&self, _index: usize) -> (r: &L::Item) {
        vstd::pervasive::unreached()
    }
}

impl<'a, L: LinkedList> core::ops::IndexMut<usize> for Indexable<&'a mut L, L> {
    /// The place of the element at `index`. What is written to it is the
    /// list's new element at `index`; nothing else changes.
    fn index_mut(&mut self, index: usize) -> (r: &mut L::Item)
        requires
            index < old(self).0@.len(),
        ensures
            Some(*r) == spec_get(old(self).0@, index as int),
            final(self).0@ == spec_set(old(self).0@, index as int, *final(r)),
            *final(final(self).0) == *final(old(self).0),
    {
        self.0.get_mut(index).unwrap()
    }
}

} // verus!
