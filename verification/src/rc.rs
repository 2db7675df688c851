//! A reference-counted pointer: cheap shared ownership of one heap value.
//!
//! Handles are cloned and dropped freely; the value lives until the last
//! handle is gone. The counting itself is the allocation's business; what is
//! modeled here is that every handle reads the same value.

use vstd::prelude::*;

verus! {

/// Relies on std::rc::Rc::clone: a new handle to the same allocation, so it
/// reads the same value; only the reference count moves.
#[verifier::external_body]
fn rc_share<T>(rc: &std::rc::Rc<T>) -> (r: std::rc::Rc<T>)
    ensures
        r == *rc,
{
    std::rc::Rc::clone(rc)
}

/// A shared-ownership handle to a heap value.
pub struct Rc<T> {
    inner: std::rc::Rc<T>,
}

impl<T> Rc<T> {
    /// The shared value.
    pub closed spec fn val(&self) -> T {
        *self.inner
    }

    /// Moves the value to the heap under a first handle.
    pub fn new(value: T) -> (r: Self)
        ensures
            r.val() == value,
    {
        Rc { inner: std::rc::Rc::new(value) }
    }

    /// A reference to the shared value.
    pub fn get(&self) -> (r: &T)
        ensures
            *r == self.val(),
    {
        &self.inner
    }
}

impl<T> Clone for Rc<T> {
    /// Another handle to the same value.
    fn clone(&self) -> (r: Self)
        ensures
            r.val() == self.val(),
    {
        Rc { inner: rc_share(&self.inner) }
    }
}

} // verus!
