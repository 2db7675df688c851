//! The shared state of the channel and its transition discipline.
//!
//! A channel is, at any instant, a pending queue of values in arrival order
//! together with a count of live producer handles. The consumer additionally
//! keeps a private cache of values it has already taken out of the shared
//! queue. Every operation of the channel is a small transition on this state;
//! the handles in [`crate::channel`] only run these transitions under a lock.

use std::collections::VecDeque;
use vstd::prelude::*;

verus! {

/// The state shared by every handle of one channel: the values that have been
/// sent but not yet taken by the consumer, in arrival order, and the number of
/// live producer handles.
pub struct Queue<T> {
    pending: VecDeque<T>,
    sender_count: usize,
}

impl<T> Queue<T> {
    /// The pending values, oldest first.
    pub closed spec fn pending_seq(&self) -> Seq<T> {
        self.pending@
    }

    /// How many producer handles are alive.
    pub closed spec fn senders(&self) -> nat {
        self.sender_count as nat
    }

    /// At least one producer handle is alive, so more values may arrive.
    pub open spec fn is_open(&self) -> bool {
        self.senders() > 0
    }

    /// No producer is left, but values are still pending: they will all be
    /// delivered before the end of the stream is reported.
    pub open spec fn is_draining(&self) -> bool {
        self.senders() == 0 && self.pending_seq().len() > 0
    }

    /// No producer is left and nothing is pending: every later receive
    /// reports the end of the stream.
    pub open spec fn is_closed(&self) -> bool {
        self.senders() == 0 && self.pending_seq().len() == 0
    }

    /// The consumer must block: nothing is pending, yet a live producer may
    /// still send.
    pub open spec fn spec_must_wait(&self) -> bool {
        self.pending_seq().len() == 0 && self.senders() > 0
    }

    /// Fresh channel state: nothing pending, one producer handle (the one the
    /// factory returns).
    pub fn new() -> (q: Self)
        ensures
            q.pending_seq() == Seq::<T>::empty(),
            q.senders() == 1,
    {
        Queue { pending: VecDeque::new(), sender_count: 1 }
    }

    /// A producer appends a value at the tail of the pending queue; the
    /// queue is unbounded, so this never fails.
    pub fn enqueue(&mut self, t: T)
        ensures
            final(self).pending_seq() == old(self).pending_seq().push(t),
            final(self).senders() == old(self).senders(),
    {
        self.pending.push_back(t);
    }

    /// A producer handle was cloned. The count saturates at the machine
    /// bound, which live handles cannot reach, each being a distinct
    /// allocation.
    pub fn add_sender(&mut self)
        ensures
            final(self).senders() == if old(self).senders() < usize::MAX {
                old(self).senders() + 1
            } else {
                old(self).senders()
            },
            final(self).pending_seq() == old(self).pending_seq(),
    {
        if self.sender_count < usize::MAX {
            self.sender_count = self.sender_count + 1;
        }
    }

    /// A producer handle went away. Returns whether it was the last one, in
    /// which case a blocked consumer has to be woken to observe the closure.
    /// At zero, where no handle is left that could go away, the count stays
    /// zero.
    pub fn remove_sender(&mut self) -> (last: bool)
        ensures
            final(self).senders() == if old(self).senders() > 0 {
                (old(self).senders() - 1) as nat
            } else {
                0
            },
            final(self).pending_seq() == old(self).pending_seq(),
            last == (old(self).senders() == 1),
        opens_invariants none
        no_unwind
    {
        let was_last = self.sender_count == 1;
        if self.sender_count > 0 {
            self.sender_count = self.sender_count - 1;
        }
        was_last
    }

    /// Whether a consumer that finds this state has to keep waiting.
    pub fn must_wait(&self) -> (w: bool)
        ensures
            w == self.spec_must_wait(),
    {
        self.pending.len() == 0 && self.sender_count > 0
    }

    /// The consumer takes the oldest pending value and, in the same critical
    /// section, moves every remaining pending value into its private cache,
    /// so that the following receives need not reach the shared state at all.
    /// Returns nothing exactly when nothing is pending.
    pub fn take_front(&mut self, cache: &mut VecDeque<T>) -> (r: Option<T>)
        requires
            old(cache)@.len() == 0,
        ensures
            final(self).senders() == old(self).senders(),
            old(self).pending_seq().len() > 0 ==> {
                &&& r == Some(old(self).pending_seq()[0])
                &&& final(self).pending_seq() == Seq::<T>::empty()
                &&& final(cache)@ == old(self).pending_seq().skip(1)
            },
            old(self).pending_seq().len() == 0 ==> {
                &&& r is None
                &&& final(self).pending_seq() == old(self).pending_seq()
                &&& final(cache)@ == old(cache)@
            },
    {
        let ghost entry_pending = self.pending@;
        match self.pending.pop_front() {
            Some(t) => {
                if self.pending.len() != 0 {
                    // Relocate the whole remainder in one move; order is kept.
                    core::mem::swap(cache, &mut self.pending);
                }
                proof {
                    assert(cache@ =~= entry_pending.skip(1));
                    assert(self.pending@ =~= Seq::<T>::empty());
                }
                Some(t)
            },
            None => None,
        }
    }

    /// Asked, under the lock, whether the consumer must keep waiting; when
    /// it need not, the receive step runs at once, in the same critical
    /// section, leaving the delivered value behind. This is the predicate a
    /// blocked consumer hands to the wait: the very call that stops the
    /// waiting settles the outcome.
    pub fn step_or_wait(&mut self, cache: &mut VecDeque<T>, out: &mut Option<T>) -> (waiting:
        bool)
        ensures
            waiting == old(self).spec_must_wait(),
            waiting ==> {
                &&& final(self).pending_seq() == old(self).pending_seq()
                &&& final(self).senders() == old(self).senders()
                &&& final(cache)@ == old(cache)@
                &&& *final(out) == *old(out)
            },
            !waiting ==> settled_step(
                *old(self),
                *final(self),
                old(cache)@,
                final(cache)@,
                *final(out),
            ),
    {
        if self.must_wait() {
            true
        } else {
            *out = self.receive_step(cache);
            false
        }
    }

    /// One receive transition of the whole consumer side: the private cache
    /// is preferred, the shared queue is the fallback, and nothing is
    /// delivered exactly when both are empty. This is the decision core of
    /// [`crate::channel::Receiver::receive`], free of blocking.
    pub fn receive_step(&mut self, cache: &mut VecDeque<T>) -> (r: Option<T>)
        ensures
            final(cache)@ == spec_receive(old(cache)@, old(self).pending_seq()).0,
            final(self).pending_seq() == spec_receive(old(cache)@, old(self).pending_seq()).1,
            r == spec_receive(old(cache)@, old(self).pending_seq()).2,
            final(self).senders() == old(self).senders(),
            (r is None) <==> buffered(old(cache)@, old(self).pending_seq()).len() == 0,
            r is Some ==> r == Some(buffered(old(cache)@, old(self).pending_seq())[0]),
    {
        if let Some(t) = cache.pop_front() {
            proof {
                assert(cache@ =~= old(cache)@.skip(1));
            }
            return Some(t);
        }
        self.take_front(cache)
    }
}

/// The values a consumer is still owed, oldest first: its private cache in
/// front of the shared pending queue.
pub open spec fn buffered<T>(cache: Seq<T>, pending: Seq<T>) -> Seq<T> {
    cache + pending
}

/// One settled consumer attempt, as the guarded wait leaves it: a state that
/// did not require waiting was taken through one receive step, delivering r
/// and leaving the new cache and the new state behind.
pub open spec fn settled_step<T>(
    before: Queue<T>,
    after: Queue<T>,
    cache_before: Seq<T>,
    cache_after: Seq<T>,
    r: Option<T>,
) -> bool {
    &&& !before.spec_must_wait()
    &&& cache_after == spec_receive(cache_before, before.pending_seq()).0
    &&& after.pending_seq() == spec_receive(cache_before, before.pending_seq()).1
    &&& r == spec_receive(cache_before, before.pending_seq()).2
    &&& after.senders() == before.senders()
}

/// What one receive does to the consumer-visible state, as a pure transition:
/// the new cache, the new pending queue, and the delivered value, in that
/// order. The cache is served first; on a cache miss the front pending value
/// is delivered and the whole remainder moves into the cache.
pub open spec fn spec_receive<T>(cache: Seq<T>, pending: Seq<T>) -> (Seq<T>, Seq<T>, Option<T>) {
    if cache.len() > 0 {
        (cache.skip(1), pending, Some(cache[0]))
    } else if pending.len() > 0 {
        (pending.skip(1), Seq::<T>::empty(), Some(pending[0]))
    } else {
        (cache, pending, None)
    }
}

/// Every value that receiving over and over delivers before the stream
/// would block or end, in delivery order.
pub open spec fn drained<T>(cache: Seq<T>, pending: Seq<T>) -> Seq<T>
    decreases cache.len() + pending.len(),
{
    match spec_receive(cache, pending).2 {
        Some(t) => seq![t] + drained(
            spec_receive(cache, pending).0,
            spec_receive(cache, pending).1,
        ),
        None => Seq::<T>::empty(),
    }
}

/// Delivery is first-in, first-out and loses nothing: receiving repeatedly
/// yields exactly the buffered values, in the order they were appended,
/// however they are split between the private cache and the shared queue.
/// The cache is invisible to the caller of receive.
pub proof fn lemma_drained_is_fifo<T>(cache: Seq<T>, pending: Seq<T>)
    ensures
        drained(cache, pending) == buffered(cache, pending),
    decreases cache.len() + pending.len(),
{
    if cache.len() > 0 {
        lemma_drained_is_fifo(cache.skip(1), pending);
        assert(seq![cache[0]] + (cache.skip(1) + pending) =~= cache + pending);
    } else if pending.len() > 0 {
        lemma_drained_is_fifo(pending.skip(1), Seq::<T>::empty());
        assert(seq![pending[0]] + (pending.skip(1) + Seq::<T>::empty()) =~= cache + pending);
    } else {
        assert(drained(cache, pending) =~= cache + pending);
    }
}

/// A receive on a channel whose producers are all gone still delivers the
/// oldest buffered value: draining precedes the end of the stream.
pub proof fn lemma_draining_delivers<T>(cache: Seq<T>, pending: Seq<T>)
    requires
        buffered(cache, pending).len() > 0,
    ensures
        spec_receive(cache, pending).2 == Some(buffered(cache, pending)[0]),
        buffered(spec_receive(cache, pending).0, spec_receive(cache, pending).1)
            == buffered(cache, pending).skip(1),
{
    if cache.len() > 0 {
        assert(cache.skip(1) + pending =~= (cache + pending).skip(1));
    } else {
        assert(cache + pending =~= pending);
        assert(pending.skip(1) + Seq::<T>::empty() =~= (cache + pending).skip(1));
    }
}

/// Once nothing is buffered and no producer is left, the channel is closed
/// for good: a receive changes nothing and reports the end of the stream, so
/// every later receive does the same.
pub proof fn lemma_closed_is_permanent<T>(cache: Seq<T>, pending: Seq<T>)
    requires
        buffered(cache, pending).len() == 0,
    ensures
        spec_receive(cache, pending).0 == cache,
        spec_receive(cache, pending).1 == pending,
        spec_receive(cache, pending).2 is None,
{
}

impl<T> Queue<T> {
    /// A consumer never chooses to wait once the last producer handle is
    /// gone: with the count at zero it either delivers a buffered value or
    /// reports the end of the stream, so dropping the last producer cannot
    /// leave it blocked.
    pub proof fn lemma_no_producer_no_wait(&self)
        requires
            self.senders() == 0,
        ensures
            !self.spec_must_wait(),
    {
    }

    /// The channel is always in exactly one of its three states: open while
    /// a producer lives, then draining while values outlast the producers,
    /// then closed.
    pub proof fn lemma_states_partition(&self)
        ensures
            self.is_open() <==> !self.is_draining() && !self.is_closed(),
            !(self.is_draining() && self.is_closed()),
    {
    }
}

} // verus!
