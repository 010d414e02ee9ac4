//! The channel that counts its producers.
//!
//! The number of live producers is kept beside the queue, under the same
//! lock: a clone adds one, a drop takes one away, and the drop that brings
//! it to zero wakes the consumer. Both sides own the shared state, so a
//! producer cannot tell that the consumer is gone: `send` always succeeds,
//! and a value sent to a channel without a consumer is never received.
use crate::error::SendError;
use crate::model::{take_batch, take_local, SharedState};
use crate::queue::{pop_batch, pop_local, push_newest, shall_wait};
use crate::sync::{guarded, lock, notify_one, wait_while};
use std::collections::VecDeque;
use std::sync::{Arc, Condvar, Mutex};
use vstd::prelude::*;

verus! {

/// What the lock guards: the queue, and the number of live producers.
pub struct Inner<T> {
    queue: VecDeque<T>,
    tx_count: usize,
}

impl<T> View for Inner<T> {
    type V = SharedState<T>;

    closed spec fn view(&self) -> SharedState<T> {
        SharedState { queue: self.queue@, producers: self.tx_count as nat }
    }
}

impl<T> Inner<T> {
    /// The state of a new channel: an empty queue and one producer.
    pub fn new() -> (inner: Self)
        ensures
            inner@ == SharedState::<T>::fresh(),
    {
        Inner { queue: VecDeque::new(), tx_count: 1 }
    }

    /// Puts `value` at the tail of the queue.
    pub fn push(&mut self, value: T)
        ensures
            final(self)@ == old(self)@.send(value),
    {
        push_newest(&mut self.queue, value);
    }

    /// Counts one producer more. The count stops at `usize::MAX`, which no
    /// program reaches: every producer owns a reference to the shared state,
    /// and `Arc` allows fewer of those.
    pub fn add_producer(&mut self)
        ensures
            old(self)@.producers < usize::MAX ==> final(self)@ == old(self)@.clone_producer(),
            old(self)@.producers >= usize::MAX ==> final(self)@ == old(self)@,
    {
        if self.tx_count < usize::MAX {
            self.tx_count += 1;
        }
    }

    /// Counts one producer less, and says whether none is left.
    pub fn remove_producer(&mut self) -> (none_left: bool)
        ensures
            final(self)@ == old(self)@.drop_producer(),
            none_left == (final(self)@.producers == 0),
        opens_invariants none
        no_unwind
    {
        if self.tx_count > 0 {
            self.tx_count -= 1;
        }
        self.tx_count == 0
    }

    /// Whether a consumer that finds this state has to wait for a signal.
    pub fn must_wait(&self) -> (wait: bool)
        ensures
            wait == self@.must_wait(),
    {
        shall_wait(&self.queue, self.tx_count)
    }

    /// Takes the oldest value of the queue and moves all that follows it into
    /// `buffer`. An empty queue gives `None` and leaves both as they are.
    pub fn take_batch(&mut self, buffer: &mut VecDeque<T>) -> (value: Option<T>)
        ensures
            (value, final(self)@.queue, final(buffer)@) == take_batch(old(self)@.queue, old(buffer)@),
            final(self)@.producers == old(self)@.producers,
    {
        pop_batch(&mut self.queue, buffer)
    }
}

/// What the two sides share.
#[verifier::reject_recursive_types(T)]
pub struct Shared<T> {
    inner: Mutex<Inner<T>>,
    available: Condvar,
}

/// The producing side of a channel. It can be cloned; each clone counts as
/// one producer until it is dropped.
#[verifier::reject_recursive_types(T)]
pub struct Sender<T> {
    shared: Arc<Shared<T>>,
}

/// The consuming side of a channel.
#[verifier::reject_recursive_types(T)]
pub struct Receiver<T> {
    shared: Arc<Shared<T>>,
    buffer: VecDeque<T>,
}

impl<T> Sender<T> {
    /// The shared state that this producer owns a part of.
    pub closed spec fn shared(&self) -> Arc<Shared<T>> {
        self.shared
    }

    /// Puts `value` at the tail of the shared queue and wakes the consumer if
    /// it waits. Never blocks and never fails, whether or not a consumer is
    /// left to receive the value.
    pub fn send(&self, value: T) -> (sent: Result<(), SendError>)
        ensures
            sent == Ok::<(), SendError>(()),
    {
        {
            let mut guard = lock(&self.shared.inner);
            guarded(&mut guard).push(value);
        }
        notify_one(&self.shared.available);
        Ok(())
    }
}

impl<T> Clone for Sender<T> {
    /// One more producer on the same channel, counted before it exists. The
    /// new handle is the same as this one: it owns the same shared state.
    fn clone(&self) -> (other: Self)
        ensures
            other == *self,
    {
        {
            let mut guard = lock(&self.shared.inner);
            guarded(&mut guard).add_producer();
        }
        Sender { shared: self.shared.clone() }
    }
}

impl<T> Drop for Sender<T> {
    /// One producer less. When none is left the consumer is woken, so that it
    /// can see that the stream has ended.
    fn drop(&mut self)
        ensures
            final(self).shared() == old(self).shared(),
        opens_invariants none
        no_unwind
    {
        let none_left;
        {
            let mut guard = lock(&self.shared.inner);
            none_left = guarded(&mut guard).remove_producer();
        }
        if none_left {
            notify_one(&self.shared.available);
        }
    }
}

impl<T> Receiver<T> {
    /// The values that the consumer has taken from the shared queue and not
    /// yet handed out, oldest first.
    pub closed spec fn buffered(&self) -> Seq<T> {
        self.buffer@
    }

    /// The shared state that the consumer owns a part of.
    pub closed spec fn shared(&self) -> Arc<Shared<T>> {
        self.shared
    }

    /// The oldest value that was sent and not yet received, or `None` when
    /// nothing is pending and no producer is left.
    ///
    /// While the local buffer holds values they are handed out without
    /// touching the lock. Once it is empty the call takes the lock, waits
    /// while the shared queue is empty and a producer is alive, and then
    /// takes the whole queue: its first value is returned and the rest
    /// becomes the local buffer. So the call blocks for as long as nothing is
    /// pending and a producer may still send.
    pub fn recv(&mut self) -> (value: Option<T>)
        ensures
            old(self).buffered().len() > 0 ==> (value, final(self).buffered()) == take_local(
                old(self).buffered(),
            ),
            old(self).buffered().len() == 0 ==> exists|queue: Seq<T>| #[trigger]
                take_batch(queue, old(self).buffered()) == (
                    value,
                    Seq::<T>::empty(),
                    final(self).buffered(),
                ),
            final(self).shared() == old(self).shared(),
    {
        let local = pop_local(&mut self.buffer);
        if local.is_some() {
            return local;
        }
        let guard = lock(&self.shared.inner);
        let mut guard = wait_while(
            &self.shared.available,
            guard,
            |inner: &mut Inner<T>| -> (wait: bool) { inner.must_wait() },
        );
        let inner = guarded(&mut guard);
        let ghost queue = inner@.queue;
        let value = inner.take_batch(&mut self.buffer);
        proof {
            assert(take_batch(queue, old(self).buffered()) == (
                value,
                Seq::<T>::empty(),
                self.buffered(),
            ));
        }
        value
    }
}

/// A new channel: one producer and the consumer, which own the same shared
/// state, with nothing sent yet.
pub fn channel<T>() -> (ends: (Sender<T>, Receiver<T>))
    ensures
        ends.1.buffered() == Seq::<T>::empty(),
        ends.0.shared() == ends.1.shared(),
{
    let shared = Arc::new(Shared { inner: Mutex::new(Inner::new()), available: Condvar::new() });
    (Sender { shared: shared.clone() }, Receiver { shared, buffer: VecDeque::new() })
}

} // verus!
