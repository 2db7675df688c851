//! An owning pointer to a heap value.

use vstd::prelude::*;

verus! {

/// An owning pointer: the value lives on the heap and dies with the pointer.
pub struct Boks<T> {
    p: Box<T>,
}

impl<T> Boks<T> {
    /// The value owned.
    pub closed spec fn val(&self) -> T {
        *self.p
    }

    /// Moves the value to the heap.
    pub fn new(p: T) -> (b: Self)
        ensures
            b.val() == p,
    {
        Boks { p: Box::new(p) }
    }

    /// A reference to the owned value.
    pub fn get(&self) -> (r: &T)
        ensures
            *r == self.val(),
    {
        &self.p
    }

    /// Replaces the owned value, dropping the old one.
    pub fn set(&mut self, p: T)
        ensures
            final(self).val() == p,
    {
        *self.p = p;
    }

    /// Takes the value back off the heap.
    pub fn into_inner(self) -> (r: T)
        ensures
            r == self.val(),
    {
        *self.p
    }
}

} // verus!
