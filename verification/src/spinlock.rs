//! A sequential model of a spinlock-guarded value.
//!
//! The real spinlock spins on an atomic flag and hands closures a reference
//! into an unsafe cell; here the flag and the guarded value are plain state,
//! and acquiring and releasing are transitions on it, so the locking
//! discipline itself is checked: the data is only reachable between an
//! acquire and the matching release.

use vstd::prelude::*;

verus! {

/// A value guarded by a flag that must be taken before the value may be
/// touched and given back afterwards.
pub struct Mutex<T> {
    is_locked: bool,
    data: T,
}

impl<T> Mutex<T> {
    /// Whether the lock is currently taken.
    pub closed spec fn locked(&self) -> bool {
        self.is_locked
    }

    /// The guarded value.
    pub closed spec fn val(&self) -> T {
        self.data
    }

    /// A fresh lock around the given value, not taken.
    pub fn new(data: T) -> (m: Self)
        ensures
            !m.locked(),
            m.val() == data,
    {
        Mutex { is_locked: false, data }
    }

    /// Takes the lock. Where the real spinlock would spin until the holder
    /// releases, the sequential model requires that nobody holds it.
    pub fn acquire(&mut self)
        requires
            !old(self).locked(),
        ensures
            final(self).locked(),
            final(self).val() == old(self).val(),
    {
        self.is_locked = true;
    }

    /// Reads the guarded value; only the lock holder may.
    pub fn get(&self) -> (r: &T)
        requires
            self.locked(),
        ensures
            *r == self.val(),
    {
        &self.data
    }

    /// Replaces the guarded value; only the lock holder may.
    pub fn set(&mut self, data: T)
        requires
            old(self).locked(),
        ensures
            final(self).locked(),
            final(self).val() == data,
    {
        self.data = data;
    }

    /// Gives the lock back.
    pub fn release(&mut self)
        requires
            old(self).locked(),
        ensures
            !final(self).locked(),
            final(self).val() == old(self).val(),
    {
        self.is_locked = false;
    }
}

} // verus!
