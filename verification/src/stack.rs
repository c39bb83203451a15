//! A last-in-first-out collection with access restricted to the top item.

use vstd::prelude::*;

verus! {

/// A collection adapter over a growable array.
///
/// Allows pushing/popping the top in amortized O(1) time. All other elements
/// are hidden. The view is the sequence of items from bottom to top, so the
/// top of the stack is the last element of the view.
pub struct Stack<T>(Vec<T>);

impl<T> View for Stack<T> {
    type V = Seq<T>;

    closed spec fn view(&self) -> Seq<T> {
        self.0@
    }
}

impl<T> Stack<T> {
    /// Construct an empty stack.
    pub fn new() -> (r: Self)
        ensures
            r@ == Seq::<T>::empty(),
    {
        Stack(Vec::new())
    }

    /// Add an item to the top of the stack.
    pub fn push(&mut self, item: T)
        ensures
            final(self)@ == old(self)@.push(item),
    {
        self.0.push(item);
    }

    /// Remove the item at the top and return it, or `None` if the stack is
    /// empty.
    pub fn pop(&mut self) -> (r: Option<T>)
        ensures
            match r {
                Some(item) => old(self)@.len() > 0 && item == old(self)@.last()
                    && final(self)@ == old(self)@.drop_last(),
                None => old(self)@.len() == 0 && final(self)@ == old(self)@,
            },
    {
        self.0.pop()
    }

    /// Returns `true` if the stack is empty.
    pub fn is_empty(&self) -> (r: bool)
        ensures
            r == (self@.len() == 0),
    {
        self.0.is_empty()
    }

    /// A reference to the item at the top of the stack, or `None` if the
    /// stack is empty.
    pub fn top(&self) -> (r: Option<&T>)
        ensures
            match r {
                Some(item) => self@.len() > 0 && *item == self@.last(),
                None => self@.len() == 0,
            },
    {
        if self.0.len() == 0 {
            None
        } else {
            Some(&self.0[self.0.len() - 1])
        }
    }

    /// A mutable reference to the item at the top of the stack.
    ///
    /// Unlike the other accessors this demands a non-empty stack, since a
    /// mutable reference cannot be carried inside an `Option` here.
    pub fn top_mut(&mut self) -> (r: &mut T)
        requires
            old(self)@.len() > 0,
        ensures
            *r == old(self)@.last(),
            final(self)@ == old(self)@.update(old(self)@.len() - 1, *final(r)),
    {
        let i = self.0.len() - 1;
        &mut self.0[i]
    }
}

} // verus!
