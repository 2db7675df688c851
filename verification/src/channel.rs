//! The handles of the channel: a cloneable producer, a unique consumer, and
//! the factory that makes one of each over fresh shared state.
//!
//! Every change to the shared state is a verified transition of
//! [`crate::queue::Queue`], run by verified code on the guarded value
//! through a mutable reference that the small trusted functions below hand
//! out of the lock. Trusted are only the primitives themselves: making,
//! taking and dropping the lock, reaching through its guard, waking the
//! consumer, sharing the handle, and the wait — a condition-variable sleep
//! whose predicate is the verified [`Queue::step_or_wait`], re-tested under
//! the lock on every wakeup, so the lock is released atomically while the
//! consumer sleeps and a wakeup between test and sleep cannot be lost.
//!
//! What the transitions do is their contract in [`crate::queue`]; the state
//! they run on is hidden behind the lock, so the handles' own contracts
//! speak of what a handle can know: its channel identity, its own history,
//! and — for the consumer, whose step runs in the critical section that
//! ended its wait — the settled state that step found and left, kept as a
//! ghost record.

use std::collections::VecDeque;
use std::sync::Arc;
use std::sync::Condvar;
use vstd::prelude::*;

use crate::queue::settled_step;
use crate::queue::Queue;

verus! {

#[verifier::external_type_specification]
#[verifier::external_body]
#[verifier::reject_recursive_types(T)]
pub struct ExMutex<T: ?Sized>(std::sync::Mutex<T>);

#[verifier::external_type_specification]
#[verifier::external_body]
#[verifier::reject_recursive_types(T)]
pub struct ExMutexGuard<'a, T: ?Sized + 'a>(std::sync::MutexGuard<'a, T>);

#[verifier::external_type_specification]
#[verifier::external_body]
pub struct ExCondvar(Condvar);

/// Relies on std::sync::Mutex::new: wraps the fresh shared state in the lock
/// that will guard it.
#[verifier::external_body]
fn mutex_new<T>(t: T) -> std::sync::Mutex<T> {
    std::sync::Mutex::new(t)
}

/// Relies on std::sync::Condvar::new: the signal on which the consumer
/// sleeps.
#[verifier::external_body]
fn condvar_new() -> Condvar {
    Condvar::new()
}

/// Relies on std::sync::Condvar::notify_one: wakes the consumer if it is
/// blocked; correct for this channel because there is exactly one consumer.
/// notify_one never panics, so the call cannot unwind.
#[verifier::external_body]
fn notify_receiver(c: &Condvar)
    opens_invariants none
    no_unwind
{
    c.notify_one();
}

/// Relies on std::sync::Mutex::lock: blocks until the lock is free and
/// takes it; the guard releases it when dropped. Panics only if the lock was
/// poisoned by a thread that panicked while holding it, as the original
/// lock-and-unwrap would.
#[verifier::external_body]
fn lock_state<'a, T>(m: &'a std::sync::Mutex<T>) -> std::sync::MutexGuard<'a, T> {
    m.lock().unwrap()
}

/// Relies on std::sync::Mutex::lock, for the one caller that must not
/// unwind: a poisoned lock gives nothing back instead of panicking, so a
/// producer's drop never aborts a second time during a panic elsewhere.
#[verifier::external_body]
fn lock_state_ignoring_poison<'a, T>(m: &'a std::sync::Mutex<T>) -> Option<std::sync::MutexGuard<'a, T>>
    opens_invariants none
    no_unwind
{
    m.lock().ok()
}

/// Relies on the guard's DerefMut: a mutable reference to the guarded value,
/// usable while the lock is held. Dereferencing a guard never panics.
#[verifier::external_body]
fn guard_get_mut<'a, 'b, T>(g: &'a mut std::sync::MutexGuard<'b, T>) -> &'a mut T
    opens_invariants none
    no_unwind
{
    &mut **g
}

/// Relies on std::sync::Condvar::wait_while: sleeps, with the lock
/// released, for as long as the verified Queue::step_or_wait — the predicate
/// handed to it — reports that the consumer must wait; the very call that
/// stops the waiting runs the verified receive step in the same critical
/// section. wait_while re-tests under the lock on every wakeup, so spurious
/// wakeups go back to sleep and a notification cannot fall between the test
/// and the sleep. Whatever the hidden state held, the outcome is therefore
/// one verified step on some state that did not require waiting — the one
/// temporal fact taken on trust here. Panics only on a poisoned lock.
#[verifier::external_body]
fn wait_and_step<'a, T>(
    c: &Condvar,
    guard: std::sync::MutexGuard<'a, Queue<T>>,
    cache: &mut VecDeque<T>,
    out: &mut Option<T>,
) -> (g: std::sync::MutexGuard<'a, Queue<T>>)
    ensures
        exists|before: Queue<T>, after: Queue<T>| settled_step(
            before,
            after,
            old(cache)@,
            final(cache)@,
            *final(out),
        ),
{
    c.wait_while(guard, |q: &mut Queue<T>| q.step_or_wait(cache, out)).unwrap()
}

/// Relies on std::sync::Arc::clone: a new handle to the very same
/// allocation, so the two are equal as values; only the reference count
/// moves.
#[verifier::external_body]
fn arc_share<T>(a: &Arc<T>) -> (r: Arc<T>)
    ensures
        r == *a,
{
    Arc::clone(a)
}

/// The state shared by every handle of one channel: the guarded queue and
/// the signal for the blocked consumer. The state as the factory made it is
/// kept on record, fixed at birth.
#[verifier::reject_recursive_types(T)]
pub struct Channel<T> {
    queue: std::sync::Mutex<Queue<T>>,
    cond_var: Condvar,
    init: Ghost<Queue<T>>,
}

impl<T> Channel<T> {
    /// The guarded state as the factory put it under the lock; only the
    /// verified transitions have touched it since.
    pub closed spec fn initial_state(&self) -> Queue<T> {
        self.init@
    }
}

/// A producer handle. Cloning it admits another producer; dropping it
/// retires one, and retiring the last one closes the channel.
#[verifier::reject_recursive_types(T)]
pub struct Sender<T> {
    channel: Arc<Channel<T>>,
    sent: Ghost<Seq<T>>,
}

/// The unique consumer handle. It keeps a private cache of values already
/// taken out of the shared queue; the cache needs no lock because the type
/// is not cloneable, so no second consumer can exist.
#[verifier::reject_recursive_types(T)]
pub struct Receiver<T> {
    channel: Arc<Channel<T>>,
    cache: VecDeque<T>,
    last_seen: Ghost<(Queue<T>, Queue<T>)>,
}

impl<T> Sender<T> {
    /// The shared state this producer feeds.
    pub closed spec fn chan(&self) -> Arc<Channel<T>> {
        self.channel
    }

    /// Every value this handle has sent, in sending order.
    pub closed spec fn sent(&self) -> Seq<T> {
        self.sent@
    }

    /// Appends the value at the tail of the shared queue — the verified
    /// [`Queue::enqueue`], run on the guarded state — and signals the
    /// consumer, after releasing the lock so the woken thread can take it at
    /// once. The queue is unbounded: send never blocks and never rejects a
    /// value.
    pub fn send(&mut self, t: T)
        ensures
            final(self).chan() == old(self).chan(),
            final(self).sent() == old(self).sent().push(t),
    {
        self.sent = Ghost(self.sent@.push(t));
        {
            let mut guard = lock_state(&self.channel.queue);
            guard_get_mut(&mut guard).enqueue(t);
        }
        notify_receiver(&self.channel.cond_var);
    }
}

impl<T> Clone for Sender<T> {
    /// A new producer handle over the very same channel, its own sending
    /// history still empty; the shared live-producer count goes up by one,
    /// as [`Queue::add_sender`], run on the guarded state, states.
    fn clone(&self) -> (s: Self)
        ensures
            s.chan() == self.chan(),
            s.sent() == Seq::<T>::empty(),
    {
        {
            let mut guard = lock_state(&self.channel.queue);
            guard_get_mut(&mut guard).add_sender();
        }
        Sender { channel: arc_share(&self.channel), sent: Ghost(Seq::empty()) }
    }
}

impl<T> Drop for Sender<T> {
    /// Retires this producer: the live-producer count goes down by one, as
    /// [`Queue::remove_sender`], run on the guarded state, states, and the
    /// last producer wakes the consumer, which would otherwise wait forever
    /// for a value that can no longer arrive. The last-producer test is
    /// computed under the lock, so it cannot race a concurrent clone.
    fn drop(&mut self)
        opens_invariants none
        no_unwind
    {
        let mut no_senders = false;
        if let Some(mut guard) = lock_state_ignoring_poison(&self.channel.queue) {
            no_senders = guard_get_mut(&mut guard).remove_sender();
        }
        if no_senders {
            notify_receiver(&self.channel.cond_var);
        }
    }
}

impl<T> Channel<T> {
    /// The one factory: a producer and the consumer over one fresh shared
    /// state — [`Queue::new`]: nothing pending, a live-producer count of one
    /// — which the two returned handles, and they alone, hold.
    pub fn new() -> (handles: (Sender<T>, Receiver<T>))
        ensures
            handles.0.chan() == handles.1.chan(),
            (*handles.0.chan()).initial_state().pending_seq() == Seq::<T>::empty(),
            (*handles.0.chan()).initial_state().senders() == 1,
            handles.0.sent() == Seq::<T>::empty(),
            handles.1.cache_seq() == Seq::<T>::empty(),
            handles.1.observed() == (*handles.0.chan()).initial_state(),
            handles.1.settled() == (*handles.0.chan()).initial_state(),
    {
        let fresh = Queue::new();
        let ghost birth = fresh;
        let channel = Arc::new(
            Channel { queue: mutex_new(fresh), cond_var: condvar_new(), init: Ghost(birth) },
        );
        (
            Sender { channel: arc_share(&channel), sent: Ghost(Seq::empty()) },
            Receiver { channel, cache: VecDeque::new(), last_seen: Ghost((birth, birth)) },
        )
    }
}

impl<T> Receiver<T> {
    /// The shared state this consumer drains.
    pub closed spec fn chan(&self) -> Arc<Channel<T>> {
        self.channel
    }

    /// The values already taken out of the shared queue but not yet handed
    /// to the caller, oldest first.
    pub closed spec fn cache_seq(&self) -> Seq<T> {
        self.cache@
    }

    /// The guarded state as this consumer found it at its last locked
    /// evaluation point: the fresh state at creation, and after each receive
    /// that reached the lock, the state the wait settled on — one whose
    /// [`Queue::spec_must_wait`] was false. The cached fast path takes no
    /// look.
    pub closed spec fn observed(&self) -> Queue<T> {
        self.last_seen@.0
    }

    /// The guarded state as this consumer's last locked evaluation left it:
    /// one receive step after [`Self::observed`].
    pub closed spec fn settled(&self) -> Queue<T> {
        self.last_seen@.1
    }

    /// The next value of the stream, or None for its end.
    ///
    /// The front of the private cache is served first, without touching the
    /// shared lock. On a cache miss the consumer blocks until a value is
    /// pending or no producer is left, then runs the verified
    /// [`Queue::step_or_wait`] on the guarded state in the very critical
    /// section in which the waiting ended: the front pending value is
    /// delivered and the whole remainder moves into the cache. The outcome
    /// is one verified step on the state the wait settled on, recorded in
    /// [`Self::observed`], so None comes back only from the closed state:
    /// nothing pending and no producer left at the evaluation point, and
    /// then forever after.
    pub fn receive(&mut self) -> (r: Option<T>)
        ensures
            final(self).chan() == old(self).chan(),
            old(self).cache_seq().len() > 0 ==> {
                &&& r == Some(old(self).cache_seq()[0])
                &&& final(self).cache_seq() == old(self).cache_seq().skip(1)
                &&& final(self).observed() == old(self).observed()
                &&& final(self).settled() == old(self).settled()
            },
            old(self).cache_seq().len() == 0 ==> settled_step(
                final(self).observed(),
                final(self).settled(),
                old(self).cache_seq(),
                final(self).cache_seq(),
                r,
            ),
            r is None ==> {
                &&& old(self).cache_seq().len() == 0
                &&& final(self).cache_seq() == old(self).cache_seq()
                &&& final(self).observed().is_closed()
                &&& final(self).settled().is_closed()
            },
    {
        if let Some(t) = self.cache.pop_front() {
            proof {
                assert(self.cache@ =~= old(self).cache_seq().skip(1));
            }
            return Some(t);
        }
        // The cache moves into a local for the locked call and back after.
        let mut cache: VecDeque<T> = VecDeque::new();
        core::mem::swap(&mut cache, &mut self.cache);
        let ghost cache_before = cache@;
        let guard = lock_state(&self.channel.queue);
        let mut out: Option<T> = None;
        let _guard = wait_and_step(&self.channel.cond_var, guard, &mut cache, &mut out);
        let ghost step = choose|before: Queue<T>, after: Queue<T>| settled_step(
            before,
            after,
            cache_before,
            cache@,
            out,
        );
        core::mem::swap(&mut self.cache, &mut cache);
        self.last_seen = Ghost(step);
        proof {
            assert(settled_step(step.0, step.1, cache_before, self.cache@, out));
            if out is None {
                assert(step.0.pending_seq().len() == 0);
                assert(step.0.senders() == 0);
                assert(step.1.is_closed());
            }
        }
        out
    }
}

} // verus!
