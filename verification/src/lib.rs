//! A singly linked list whose length is part of its type.
//!
//! A list is a chain of [`Cons`] cells that ends in [`Nil`]. Every cell holds
//! an element of the same type, so the chain stands for a sequence of fixed
//! length. The operations that change the length consume the list and give
//! back a list of another type.
//!
//! [`LinkedList`] holds the operations. [`model`] says what each of them
//! makes of the sequence that a list stands for, and [`laws`] what holds of
//! them together. [`ListIter`], [`ListIterMut`] and [`ListIterOwned`] walk
//! over a list from both ends, and [`Indexable`] gives access by position in
//! square brackets.
use std::marker::PhantomData;
use vstd::prelude::*;

mod index;
mod iter;
pub mod laws;
pub mod model;

pub use index::{Indexable, ToIndexable};
pub use iter::{ListIter, ListIterMut, ListIterOwned};
pub use model::{
    spec_get, spec_head, spec_insert, spec_pop, spec_pop_back, spec_push, spec_remove, spec_set,
};

verus! {

/// The operations of a list.
///
/// The view of a list is the sequence of its elements, head first. Every
/// contract below is stated over that sequence and the functions of
/// [`model`]. Reading an element or an end of the list never fails: where
/// there is no element the answer is `None`. Taking out or putting in at a
/// position asks the caller to name a position that the list has.
pub trait LinkedList: Default + Sized + View<V = Seq<<Self as LinkedList>::Item>> {
    /// The type of the elements.
    type Item: Default;

    /// The type of the list without its head. It stands for a sequence of
    /// the same elements; code that knows it to be a list has its operations.
    type Next: View<V = Seq<Self::Item>>;

    /// The type of the list with one more element. It stands for a sequence
    /// of the same elements; code that knows it to be a list has its
    /// operations.
    type Pushed: View<V = Seq<Self::Item>>;

    /// The number of elements. It has to fit the result type.
    fn len(&self) -> (n: usize)
        requires
            self@.len() <= usize::MAX,
        ensures
            n == self@.len(),
    ;

    /// The first element, or `None` where the list is empty.
    fn head(&self) -> (r: Option<&Self::Item>)
        ensures
            match r {
                Some(item) => spec_head(self@) == Some(*item),
                None => spec_head(self@) is None,
            },
    ;

    /// The place of the first element, or `None` where the list is empty.
    /// What is written to that place is the list's new first element.
    fn head_mut(&mut self) -> (r: Option<&mut Self::Item>)
        ensures
            match r {
                Some(slot) => spec_head(old(self)@) == Some(*slot)
                    && final(self)@ == spec_set(old(self)@, 0, *final(slot)),
                None => spec_head(old(self)@) is None && *final(self) == *old(self),
            },
    ;

    /// Takes the list apart into its first element and the rest. An empty
    /// list gives `None` and an empty rest.
    fn pop(self) -> (r: (Option<Self::Item>, Self::Next))
        ensures
            (r.0, r.1@) == spec_pop(self@),
    ;

    /// Puts `elem` in front of the list.
    fn push(self, elem: Self::Item) -> (r: Self::Pushed)
        ensures
            r@ == spec_push(self@, elem),
    ;

    /// Takes the element at `idx` out of the list. The elements behind it
    /// move one place to the front. The list has to have an element at `idx`;
    /// an empty list has none.
    fn remove(self, idx: usize) -> (r: (Self::Item, Self::Next))
        requires
            idx < self@.len(),
        ensures
            (r.0, r.1@) == spec_remove(self@, idx as int),
    ;

    /// Puts `elem` at position `idx`. The elements that stood at `idx` or
    /// behind it move one place to the back. `idx` may be any position of the
    /// list or the one behind its last element.
    fn insert(self, idx: usize, elem: Self::Item) -> (r: Self::Pushed)
        requires
            idx <= self@.len(),
        ensures
            r@ == spec_insert(self@, idx as int, elem),
    ;

    /// The element at `idx`, or `None` where the list is not that long.
    fn get(&self, idx: usize) -> (r: Option<&Self::Item>)
        ensures
            match r {
                Some(item) => spec_get(self@, idx as int) == Some(*item),
                None => spec_get(self@, idx as int) is None,
            },
    ;

    /// The place of the element at `idx`, or `None` where the list is not
    /// that long. What is written to that place is the list's new element at
    /// `idx`; nothing else changes.
    fn get_mut(&mut self, idx: usize) -> (r: Option<&mut Self::Item>)
        ensures
            match r {
                Some(slot) => spec_get(old(self)@, idx as int) == Some(*slot)
                    && final(self)@ == spec_set(old(self)@, idx as int, *final(slot)),
                None => spec_get(old(self)@, idx as int) is None && *final(self) == *old(self),
            },
    ;

    /// A walk over the whole list that hands out its elements by reference.
    fn iter<'a>(&'a self) -> (it: ListIter<'a, Self>)
        requires
            self@.len() <= usize::MAX,
        ensures
            it.wf(),
            it.list() == self,
            it.front() == 0,
            it.back() == self@.len(),
            it.remaining() == self@,
    {
        let len = self.len();
        ListIter(self, 0, len)
    }

    /// A walk over the whole list that hands out the places of its elements.
    /// When the walk is over, the list holds what was written to them.
    fn iter_mut<'a>(&'a mut self) -> (it: ListIterMut<'a, Self>)
        requires
            old(self)@.len() <= usize::MAX,
        ensures
            it.wf(),
            it.list() == *old(self),
            it.front() == 0,
            it.back() == old(self)@.len(),
            it.remaining() == old(self)@,
            *final(self) == *final(it.0),
    {
        let len = self.len();
        ListIterMut(self, 0, len)
    }

    /// A walk over the whole list that hands out its elements by value.
    fn into_iter(self) -> (it: ListIterOwned<Self>)
        requires
            self@.len() <= usize::MAX,
        ensures
            it.wf(),
            it.list() == self,
            it.front() == 0,
            it.back() == self@.len(),
            it.remaining() == self@,
    {
        let len = self.len();
        ListIterOwned(Box::new(self), 0, len)
    }
}

/// A cell of the list: one element and the rest of the list.
#[derive(Debug)]
pub struct Cons<T, N>(pub T, pub N);

/// The end of the list. It holds no element.
#[derive(Debug)]
pub struct Nil<T>(pub PhantomData<T>);

impl<T> View for Nil<T> {
    type V = Seq<T>;

    open spec fn view(&self) -> Seq<T> {
        Seq::empty()
    }
}

impl<T, N: View<V = Seq<T>>> View for Cons<T, N> {
    type V = Seq<T>;

    open spec fn view(&self) -> Seq<T> {
        spec_push(self.1@, self.0)
    }
}

impl<T> Default for Nil<T> {
    fn default() -> (r: Self)
        ensures
            r@ == Seq::<T>::empty(),
    {
        Nil(PhantomData)
    }
}

impl<T: Default, N: Default> Default for Cons<T, N> {
    fn default() -> (r: Self)
        ensures
            T::default.ensures((), r.0),
            N::default.ensures((), r.1),
    {
        Cons(T::default(), N::default())
    }
}

impl<T: Default> LinkedList for Nil<T> {
    type Item = T;

    type Next = Nil<T>;

    type Pushed = Cons<T, Nil<T>>;

    fn head(&self) -> (r: Option<&T>) {
        None
    }

    fn head_mut(&mut self) -> (r: Option<&mut T>) {
        None
    }

    fn get(&self, _idx: usize) -> (r: Option<&T>) {
        None
    }

    fn get_mut(&mut self, _idx: usize) -> (r: Option<&mut T>) {
        None
    }

    fn len(&self) -> (n: usize) {
        0
    }

    fn pop(self) -> (r: (Option<T>, Nil<T>))
        ensures
            r == (None::<T>, self),
    {
        (None, self)
    }

    fn push(self, elem: T) -> (r: Cons<T, Nil<T>>)
        ensures
            r == Cons(elem, self),
    {
        Cons(elem, self)
    }

    /// There is nothing to remove: no `idx` is a position of the empty list.
    fn remove(self, _idx: usize) -> (r: (T, Nil<T>)) {
        vstd::pervasive::unreached()
    }

    fn insert(self, _idx: usize, elem: T) -> (r: Cons<T, Nil<T>>)
        ensures
            r == Cons(elem, self),
    {
        self.push(elem)
    }
}

impl<T: Default, N: LinkedList<Item = T>> LinkedList for Cons<T, N> {
    type Item = T;

    type Next = N;

    type Pushed = Cons<T, Cons<T, N>>;

    fn head(&self) -> (r: Option<&T>) {
        Some(&self.0)
    }

    fn head_mut(&mut self) -> (r: Option<&mut T>) {
        Some(&mut self.0)
    }

    fn get(&self, idx: usize) -> (r: Option<&T>) {
        if idx == 0 {
            self.head()
        } else {
            self.1.get(idx - 1)
        }
    }

    fn get_mut(&mut self, idx: usize) -> (r: Option<&mut T>) {
        if idx == 0 {
            self.head_mut()
        } else {
            self.1.get_mut(idx - 1)
        }
    }

    fn len(&self) -> (n: usize) {
        1 + self.1.len()
    }

    fn pop(self) -> (r: (Option<T>, N))
        ensures
            r == (Some(self.0), self.1),
    {
        (Some(self.0), self.1)
    }

    fn push(self, elem: T) -> (r: Cons<T, Cons<T, N>>)
        ensures
            r == Cons(elem, self),
    {
        Cons(elem, self)
    }

    fn remove(self, idx: usize) -> (r: (T, N)) {
        let ghost whole = self@;
        let Cons(head, mut rest) = self;
        // Each element before `idx` moves one cell down the list, starting
        // with the head. What the last of these moves carries out of its cell
        // is the element that stood at `idx`.
        let mut carry = head;
        let mut j: usize = 0;
        while j < idx
            invariant
                j <= idx < whole.len(),
                carry == whole[j as int],
                rest@ == whole.remove(j as int),
            decreases idx - j,
        {
            core::mem::swap(&mut carry, rest.get_mut(j).unwrap());
            j += 1;
        }
        (carry, rest)
    }

    fn insert(self, idx: usize, elem: T) -> (r: Cons<T, Cons<T, N>>) {
        let ghost whole = spec_insert(self@, idx as int, elem);
        let mut rest = self;
        // `elem` goes into the cell before `idx`, and each element before
        // `idx` moves one cell up the list. What the last of these moves
        // carries out of the first cell becomes the new head.
        let mut carry = elem;
        let mut j: usize = idx;
        while j > 0
            invariant
                j <= idx < whole.len(),
                carry == whole[j as int],
                rest@ == whole.remove(j as int),
            decreases j,
        {
            j -= 1;
            core::mem::swap(&mut carry, rest.get_mut(j).unwrap());
        }
        Cons(carry, rest)
    }
}

} // verus!
