//! The sequence that a queue holds under its lock, with exact contracts.

use vstd::prelude::*;

verus! {

/// The item that a pop returns from `s`: its head, or `None` when `s` is empty.
pub open spec fn front<T>(s: Seq<T>) -> Option<T> {
    if s.len() == 0 {
        None
    } else {
        Some(s[0])
    }
}

/// What is left of `s` after a pop: `s` without its head, or `s` itself when it is empty.
pub open spec fn after_pop<T>(s: Seq<T>) -> Seq<T> {
    if s.len() == 0 {
        s
    } else {
        s.drop_first()
    }
}

/// An ordered sequence of items: pushed at the tail, popped at the head.
#[derive(Debug)]
pub struct Fifo<T> {
    items: Vec<T>,
}

impl<T> View for Fifo<T> {
    type V = Seq<T>;

    /// The items, oldest first.
    closed spec fn view(&self) -> Seq<T> {
        self.items@
    }
}

impl<T> Fifo<T> {
    /// An empty sequence.
    pub fn new() -> (r: Self)
        ensures
            r@ == Seq::<T>::empty(),
    {
        Fifo { items: Vec::new() }
    }

    /// Appends `item` at the tail.
    pub fn push(&mut self, item: T)
        ensures
            final(self)@ == old(self)@.push(item),
    {
        self.items.push(item);
    }

    /// Removes and returns the head, the oldest item; on an empty sequence returns `None`
    /// and changes nothing.
    pub fn pop(&mut self) -> (r: Option<T>)
        ensures
            r == front(old(self)@),
            final(self)@ == after_pop(old(self)@),
    {
        if self.items.is_empty() {
            return None;
        }
        let head = self.items.remove(0);
        Some(head)
    }

    /// Whether the sequence holds no item.
    pub fn is_empty(&self) -> (r: bool)
        ensures
            r == (self@.len() == 0),
    {
        self.items.is_empty()
    }

    /// The number of items.
    pub fn len(&self) -> (r: usize)
        ensures
            r == self@.len(),
    {
        self.items.len()
    }

    /// Removes every item.
    pub fn clear(&mut self)
        ensures
            final(self)@ == Seq::<T>::empty(),
    {
        self.items.clear();
    }

    /// A copy of the items, oldest first.
    pub fn to_vec(&self) -> (r: Vec<T>)
        where
            T: Clone,
        ensures
            r.len() == self@.len(),
            forall|i: int| 0 <= i < r.len() ==> cloned::<T>(#[trigger] self@[i], r@[i]),
    {
        self.items.clone()
    }
}

impl<T> Default for Fifo<T> {
    fn default() -> (r: Self)
        ensures
            r@ == Seq::<T>::empty(),
    {
        Fifo::new()
    }
}

} // verus!
