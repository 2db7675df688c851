//! Value cells with dynamic borrow tracking.
//!
//! [`Cell`] moves whole values in and out. [`RefCell`] hands out shared or
//! exclusive access grants and tracks at run time that the two never mix:
//! any number of shared grants may be out at once, or a single exclusive
//! one, never both.

use vstd::prelude::*;

verus! {

/// A container whose value is only ever moved in and out whole, so no
/// reference into it can outlive a replacement.
pub struct Cell<T> {
    value: T,
}

impl<T> Cell<T> {
    /// The value currently held.
    pub closed spec fn val(&self) -> T {
        self.value
    }

    /// A cell holding the given value.
    pub fn new(value: T) -> (c: Self)
        ensures
            c.val() == value,
    {
        Cell { value }
    }

    /// Drops the older value and stores the new one.
    pub fn set(&mut self, value: T)
        ensures
            final(self).val() == value,
    {
        self.value = value;
    }

    /// A copy of the held value.
    pub fn get(&self) -> (v: T) where T: Copy
        ensures
            v == self.val(),
    {
        self.value
    }
}

/// How a [`RefCell`]'s value is referenced right now: not at all, by some
/// number of shared grants, or by one exclusive grant.
#[derive(Clone, Copy, PartialEq, Eq, Structural)]
pub enum References {
    /// No grant is out.
    Idle,
    /// Shared grants are out; the number counts them exactly, so it is
    /// always at least one.
    Shared(usize),
    /// One exclusive grant is out.
    Exclusive,
}

/// A grant of shared access, to be returned through
/// [`RefCell::release_shared`].
pub struct Ref;

/// A grant of exclusive access, to be returned through
/// [`RefCell::release_exclusive`].
pub struct RefMut;

/// A container whose borrow discipline is checked at run time: shared and
/// exclusive access are granted only when Rust's aliasing rule would allow a
/// reference of that kind.
pub struct RefCell<T> {
    value: T,
    current_references: References,
}

impl<T> RefCell<T> {
    /// The value currently held.
    pub closed spec fn val(&self) -> T {
        self.value
    }

    /// Which grants are out.
    pub closed spec fn refs(&self) -> References {
        self.current_references
    }

    /// A cell holding the given value, with no grant out.
    pub fn new(value: T) -> (c: Self)
        ensures
            c.val() == value,
            c.refs() == References::Idle,
    {
        RefCell { value, current_references: References::Idle }
    }

    /// A shared access grant, unless an exclusive grant is already out; the
    /// count of live shared grants goes up by one.
    pub fn borrow(&mut self) -> (r: Option<Ref>)
        requires
            old(self).refs() matches References::Shared(n) ==> n < usize::MAX,
        ensures
            final(self).val() == old(self).val(),
            match old(self).refs() {
                References::Exclusive => {
                    &&& r is None
                    &&& final(self).refs() == old(self).refs()
                },
                References::Idle => {
                    &&& r is Some
                    &&& final(self).refs() == References::Shared(1)
                },
                References::Shared(n) => {
                    &&& r is Some
                    &&& final(self).refs() == References::Shared((n + 1) as usize)
                },
            },
    {
        let current_references = self.current_references;
        if current_references == References::Exclusive {
            return None;
        }
        self.current_references = match current_references {
            References::Idle => References::Shared(1),
            References::Shared(previous_count) => References::Shared(previous_count + 1),
            References::Exclusive => {
                proof {
                    assert(false);
                }
                References::Exclusive
            },
        };
        Some(Ref)
    }

    /// An exclusive access grant, only when no grant of either kind is out.
    #[allow(non_snake_case)]
    pub fn borrowMut(&mut self) -> (r: Option<RefMut>)
        ensures
            final(self).val() == old(self).val(),
            match old(self).refs() {
                References::Idle => {
                    &&& r is Some
                    &&& final(self).refs() == References::Exclusive
                },
                _ => {
                    &&& r is None
                    &&& final(self).refs() == old(self).refs()
                },
            },
    {
        let current_references = self.current_references;
        if current_references != References::Idle {
            return None;
        }
        self.current_references = References::Exclusive;
        Some(RefMut)
    }

    /// Reads the value under a grant of either kind.
    pub fn read(&self) -> (v: &T)
        ensures
            *v == self.val(),
    {
        &self.value
    }

    /// Replaces the value under an exclusive grant.
    pub fn write(&mut self, grant: &RefMut, value: T)
        requires
            old(self).refs() == References::Exclusive,
        ensures
            final(self).val() == value,
            final(self).refs() == old(self).refs(),
    {
        let _ = grant;
        self.value = value;
    }

    /// Takes a shared grant back: the count of live shared grants goes down
    /// by one, and giving back the last one leaves the cell idle.
    pub fn release_shared(&mut self, grant: Ref)
        requires
            old(self).refs() matches References::Shared(n) && n >= 1,
        ensures
            final(self).val() == old(self).val(),
            match old(self).refs() {
                References::Shared(n) => final(self).refs() == if n == 1 {
                    References::Idle
                } else {
                    References::Shared((n - 1) as usize)
                },
                _ => false,
            },
    {
        let _ = grant;
        self.current_references = match self.current_references {
            References::Shared(1) => References::Idle,
            References::Shared(previous_count) => References::Shared(previous_count - 1),
            _ => {
                proof {
                    assert(false);
                }
                References::Idle
            },
        };
    }

    /// Takes the exclusive grant back; the cell turns idle.
    pub fn release_exclusive(&mut self, grant: RefMut)
        requires
            old(self).refs() == References::Exclusive,
        ensures
            final(self).val() == old(self).val(),
            final(self).refs() == References::Idle,
    {
        let _ = grant;
        self.current_references = References::Idle;
    }
}

} // verus!
