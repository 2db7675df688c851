//! A double-ended flattening iterator over a sequence of groups.
//!
//! Values come out in group order, front to back; a consumer may also take
//! values from the back end. A group is only begun once the previous one is
//! exhausted, and the two ends meet in the middle without ever yielding a
//! value twice.

use vstd::prelude::*;

verus! {

/// The concatenation of a sequence of groups, in order.
pub open spec fn flat<T>(groups: Seq<Seq<T>>) -> Seq<T>
    decreases groups.len(),
{
    if groups.len() == 0 {
        Seq::<T>::empty()
    } else {
        groups[0] + flat(groups.skip(1))
    }
}

/// Concatenation taken group by group from the back: splitting off the last
/// group first gives the same flattening.
pub proof fn lemma_flat_drop_last<T>(groups: Seq<Seq<T>>)
    requires
        groups.len() > 0,
    ensures
        flat(groups) == flat(groups.drop_last()) + groups.last(),
    decreases groups.len(),
{
    if groups.len() == 1 {
        assert(flat(groups.skip(1)) =~= Seq::<T>::empty());
        assert(flat(groups.drop_last()) =~= Seq::<T>::empty());
        assert(flat(groups) =~= flat(groups.drop_last()) + groups.last());
    } else {
        lemma_flat_drop_last(groups.skip(1));
        assert(groups.skip(1).drop_last() =~= groups.drop_last().skip(1));
        assert(groups.skip(1).last() == groups.last());
        assert(groups.drop_last()[0] =~= groups[0]);
        assert(flat(groups) =~= flat(groups.drop_last()) + groups.last());
    }
}

/// What is left of a group under consumption, the group being absent once a
/// side has finished with it.
pub open spec fn group_rest<T>(inner: Option<Vec<T>>) -> Seq<T> {
    match inner {
        Some(v) => v@,
        None => Seq::<T>::empty(),
    }
}

/// A double-ended iterator over the values of a sequence of groups, in group
/// order. The groups not yet begun sit in the middle; at most one group is
/// under consumption at each end.
pub struct Flatten<T> {
    outer: Vec<Vec<T>>,
    front_inner: Option<Vec<T>>,
    back_inner: Option<Vec<T>>,
}

impl<T> Flatten<T> {
    /// The views of the groups not yet begun.
    pub closed spec fn outer_groups(&self) -> Seq<Seq<T>> {
        self.outer@.map_values(|v: Vec<T>| v@)
    }

    /// What the front end has begun and not yet yielded.
    pub closed spec fn front_rest(&self) -> Seq<T> {
        group_rest(self.front_inner)
    }

    /// What the back end has begun and not yet yielded.
    pub closed spec fn back_rest(&self) -> Seq<T> {
        group_rest(self.back_inner)
    }

    /// Every value not yet yielded, in yield order of the front end.
    pub open spec fn remaining(&self) -> Seq<T> {
        self.front_rest() + flat(self.outer_groups()) + self.back_rest()
    }

    /// A fresh iterator over the given groups; nothing has been begun.
    pub fn new(iterator: Vec<Vec<T>>) -> (f: Self)
        ensures
            f.remaining() == flat(iterator@.map_values(|v: Vec<T>| v@)),
    {
        let f = Flatten { outer: iterator, front_inner: None, back_inner: None };
        proof {
            assert(f.remaining() =~= flat(f.outer_groups()));
        }
        f
    }

    /// The next value from the front: the first remaining one, leaving the
    /// rest, or nothing once the iterator is exhausted.
    #[verifier::loop_isolation(false)]
    pub fn next(&mut self) -> (r: Option<T>)
        ensures
            old(self).remaining().len() > 0 ==> {
                &&& r == Some(old(self).remaining()[0])
                &&& final(self).remaining() == old(self).remaining().skip(1)
            },
            old(self).remaining().len() == 0 ==> {
                &&& r is None
                &&& final(self).remaining() == old(self).remaining()
            },
    {
        loop
            invariant
                self.remaining() == old(self).remaining(),
            decreases 2 * self.outer@.len() + (if self.front_inner is Some { 1int } else { 0 }),
        {
            let ghost entry = self.remaining();
            if let Some(inner) = &mut self.front_inner {
                if inner.len() > 0 {
                    let t = inner.remove(0);
                    proof {
                        assert(self.remaining() =~= entry.skip(1));
                    }
                    return Some(t);
                }
                // The front group is exhausted; put it away.
                self.front_inner = None;
                proof {
                    assert(self.remaining() =~= entry);
                }
            }
            if self.outer.len() > 0 {
                // Begin the next group from the front.
                let ghost groups = self.outer_groups();
                let next_group = self.outer.remove(0);
                self.front_inner = Some(next_group);
                proof {
                    assert(self.outer_groups() =~= groups.skip(1));
                    assert(self.front_inner->0@ == groups[0]);
                    assert(self.remaining() =~= entry);
                }
            } else {
                // No group is left in the middle: the front end finishes the
                // group the back end has begun.
                if let Some(inner) = &mut self.back_inner {
                    if inner.len() > 0 {
                        let t = inner.remove(0);
                        proof {
                            assert(self.remaining() =~= entry.skip(1));
                        }
                        return Some(t);
                    }
                }
                proof {
                    assert(self.remaining() =~= Seq::<T>::empty());
                }
                return None;
            }
        }
    }

    /// The next value from the back: the last remaining one, leaving the
    /// rest, or nothing once the iterator is exhausted.
    #[verifier::loop_isolation(false)]
    pub fn next_back(&mut self) -> (r: Option<T>)
        ensures
            old(self).remaining().len() > 0 ==> {
                &&& r == Some(old(self).remaining().last())
                &&& final(self).remaining() == old(self).remaining().drop_last()
            },
            old(self).remaining().len() == 0 ==> {
                &&& r is None
                &&& final(self).remaining() == old(self).remaining()
            },
    {
        loop
            invariant
                self.remaining() == old(self).remaining(),
            decreases 2 * self.outer@.len() + (if self.back_inner is Some { 1int } else { 0 }),
        {
            let ghost entry = self.remaining();
            if let Some(inner) = &mut self.back_inner {
                if inner.len() > 0 {
                    let t = inner.pop().unwrap();
                    proof {
                        assert(self.remaining() =~= entry.drop_last());
                    }
                    return Some(t);
                }
                // The back group is exhausted; put it away.
                self.back_inner = None;
                proof {
                    assert(self.remaining() =~= entry);
                }
            }
            if self.outer.len() > 0 {
                // Begin the next group from the back.
                let ghost groups = self.outer_groups();
                let next_group = self.outer.pop().unwrap();
                self.back_inner = Some(next_group);
                proof {
                    lemma_flat_drop_last(groups);
                    assert(self.outer_groups() =~= groups.drop_last());
                    assert(self.back_inner->0@ == groups.last());
                    assert(self.remaining() =~= entry);
                }
            } else {
                // No group is left in the middle: the back end finishes the
                // group the front end has begun.
                if let Some(inner) = &mut self.front_inner {
                    if inner.len() > 0 {
                        let t = inner.pop().unwrap();
                        proof {
                            assert(self.remaining() =~= entry.drop_last());
                        }
                        return Some(t);
                    }
                }
                proof {
                    assert(self.remaining() =~= Seq::<T>::empty());
                }
                return None;
            }
        }
    }
}

/// The flattening iterator over the given groups.
pub fn flatten<T>(iterator: Vec<Vec<T>>) -> (f: Flatten<T>)
    ensures
        f.remaining() == flat(iterator@.map_values(|v: Vec<T>| v@)),
{
    Flatten::new(iterator)
}

} // verus!
