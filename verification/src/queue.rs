//! A minimal first-in, first-out queue backed by a vector.

use vstd::prelude::*;

verus! {

/// A first-in, first-out queue: items leave in the order they entered.
#[derive(Debug, Clone, PartialEq, Eq)]
pub struct Queue<T> {
    pub collection: Vec<T>,
}

impl<T> View for Queue<T> {
    type V = Seq<T>;

    open spec fn view(&self) -> Seq<T> {
        self.collection@
    }
}

impl<T> Queue<T> {
    /// Builds an empty queue.
    pub fn new() -> (q: Self)
        ensures
            q@ == Seq::<T>::empty(),
    {
        Queue { collection: Vec::new() }
    }

    /// Appends an item at the back of the queue.
    pub fn enqueue(&mut self, item: T)
        ensures
            final(self)@ == old(self)@.push(item),
    {
        self.collection.push(item)
    }

    /// Removes and returns the item at the front, or nothing when the
    /// queue is empty.
    pub fn dequeue(&mut self) -> (r: Option<T>)
        ensures
            old(self)@.len() == 0 ==> r is None && final(self)@ == old(self)@,
            old(self)@.len() > 0 ==> r == Some(old(self)@[0]) && final(self)@ == old(
                self,
            )@.subrange(1, old(self)@.len() as int),
    {
        if self.is_empty() {
            None
        } else {
            Some(self.collection.remove(0))
        }
    }

    /// The number of items in the queue.
    pub fn len(&self) -> (n: usize)
        ensures
            n == self@.len(),
    {
        self.collection.len()
    }

    /// Whether the queue holds no items.
    pub fn is_empty(&mut self) -> (r: bool)
        ensures
            *final(self) == *old(self),
            r == (old(self)@.len() == 0),
    {
        self.collection.is_empty()
    }

    /// The item at the front, without removing it.
    pub fn peek(&self) -> (r: Option<&T>)
        ensures
            (match r {
                Some(x) => self@.len() > 0 && *x == self@[0],
                None => self@.len() == 0,
            }),
    {
        if self.collection.len() == 0 {
            None
        } else {
            Some(&self.collection[0])
        }
    }

    /// Removes every item from the queue.
    pub fn clear(&mut self)
        ensures
            final(self)@ == Seq::<T>::empty(),
    {
        self.collection.clear()
    }
}

} // verus!
