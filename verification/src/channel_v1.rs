//! The channel that infers liveness from its links.
//!
//! The consumer alone owns the shared state; a producer holds a weak link to
//! it. No producer is left when no weak link is left, and the consumer is
//! gone when a link can no longer be turned into an owner. The last producer
//! to go wakes the consumer, so that it can see that the stream has ended.
use crate::error::SendError;
use crate::model::{must_wait, one_less, take_batch, take_local};
use crate::queue::{pop_batch, pop_local, push_newest, shall_wait};
use crate::sync::{downgrade, guarded, lock, notify_one, wait_while, weak_links, WeakLink};
use std::collections::VecDeque;
use std::sync::{Arc, Condvar, Mutex};
use vstd::prelude::*;

verus! {

/// What the two sides share.
#[verifier::reject_recursive_types(T)]
pub struct Shared<T> {
    queue: Mutex<VecDeque<T>>,
    available: Condvar,
}

/// The producing side of a channel. It can be cloned; each clone is one more
/// weak link to the shared state.
#[verifier::reject_recursive_types(T)]
pub struct Sender<T> {
    shared: WeakLink<Shared<T>>,
}

/// The consuming side of a channel, and the one owner of the shared state.
#[verifier::reject_recursive_types(T)]
pub struct Receiver<T> {
    shared: Arc<Shared<T>>,
    buffer: VecDeque<T>,
}

/// Whether a producer that counts `links` weak links just before it goes is
/// the last one. The handle that goes is itself among the links counted, so
/// the last producer counts one, and none is left once it has gone.
pub fn is_last_producer(links: usize) -> (last: bool)
    ensures
        last == (links > 0 && one_less(links as nat) == 0),
    opens_invariants none
    no_unwind
{
    links == 1
}

/// Sends `value` through `link`, the owner that the producer's weak link gave:
/// puts it at the tail of the shared queue and wakes the consumer if it
/// waits. Without an owner the consumer is gone; the value is dropped and the
/// error says so.
pub fn deliver<T>(link: Option<Arc<Shared<T>>>, value: T) -> (sent: Result<(), SendError>)
    ensures
        sent == if link is Some {
            Ok::<(), SendError>(())
        } else {
            Err::<(), SendError>(SendError)
        },
{
    match link {
        Some(shared) => {
            {
                let mut guard = lock(&shared.queue);
                push_newest(guarded(&mut guard), value);
            }
            notify_one(&shared.available);
            Ok(())
        },
        None => Err(SendError),
    }
}

/// Whether the consumer, having found `queue` under the lock, must wait: the
/// queue is empty and a weak link to `shared`, so a producer, is left.
pub fn still_waiting<T>(queue: &VecDeque<T>, shared: &Arc<Shared<T>>) -> (wait: bool)
    ensures
        exists|producers: nat| wait == #[trigger] must_wait(queue@, producers),
{
    let producers = weak_links(shared);
    let wait = shall_wait(queue, producers);
    assert(wait == must_wait(queue@, producers as nat));
    wait
}

impl<T> Sender<T> {
    /// The shared state that this producer's link points at, whether or not
    /// the consumer still keeps it alive.
    pub closed spec fn target(&self) -> Arc<Shared<T>> {
        self.shared.target()
    }

    /// Puts `value` at the tail of the shared queue and wakes the consumer if
    /// it waits. Never blocks. Fails with `SendError` when the consumer is
    /// gone: the failure is handed back as a value, and a caller for whom it
    /// is fatal can stop on it.
    ///
    /// Whether the consumer is gone is found out at the time of the call, by
    /// asking the weak link for an owner; `deliver` states what is returned
    /// for either answer.
    pub fn send(&self, value: T) -> (sent: Result<(), SendError>)
        ensures
            sent == Ok::<(), SendError>(()) || sent == Err::<(), SendError>(SendError),
    {
        deliver(self.shared.upgrade(), value)
    }
}

impl<T> Clone for Sender<T> {
    /// One more producer on the same channel: one more weak link, with no
    /// change to the shared state. The new handle is the same as this one.
    fn clone(&self) -> (other: Self)
        ensures
            other == *self,
    {
        Sender { shared: self.shared.duplicate() }
    }
}

impl<T> Drop for Sender<T> {
    /// The last producer to go wakes the consumer. The links are counted
    /// before this one is given up, so the last producer counts one.
    fn drop(&mut self)
        ensures
            final(self).target() == old(self).target(),
        opens_invariants none
        no_unwind
    {
        let links = self.shared.count();
        if is_last_producer(links) {
            match self.shared.upgrade() {
                Some(shared) => notify_one(&shared.available),
                None => {},
            }
        }
    }
}

impl<T> Receiver<T> {
    /// The values that the consumer has taken from the shared queue and not
    /// yet handed out, oldest first.
    pub closed spec fn buffered(&self) -> Seq<T> {
        self.buffer@
    }

    /// The shared state, which the consumer owns.
    pub closed spec fn shared(&self) -> Arc<Shared<T>> {
        self.shared
    }

    /// The oldest value that was sent and not yet received, or `None` when
    /// nothing is pending and no producer is left.
    ///
    /// While the local buffer holds values they are handed out without
    /// touching the lock. Once it is empty the call takes the lock, waits
    /// while the shared queue is empty and a producer is alive, and then
    /// takes the whole queue: its first value is returned and the rest
    /// becomes the local buffer. So the call blocks for as long as nothing is
    /// pending and a producer may still send.
    pub fn recv(&mut self) -> (value: Option<T>)
        ensures
            old(self).buffered().len() > 0 ==> (value, final(self).buffered()) == take_local(
                old(self).buffered(),
            ),
            old(self).buffered().len() == 0 ==> exists|queue: Seq<T>| #[trigger]
                take_batch(queue, old(self).buffered()) == (
                    value,
                    Seq::<T>::empty(),
                    final(self).buffered(),
                ),
            final(self).shared() == old(self).shared(),
    {
        let local = pop_local(&mut self.buffer);
        if local.is_some() {
            return local;
        }
        let guard = lock(&self.shared.queue);
        let mut guard = wait_while(
            &self.shared.available,
            guard,
            |queue: &mut VecDeque<T>| -> (wait: bool) { still_waiting(queue, &self.shared) },
        );
        let queue = guarded(&mut guard);
        let ghost found = queue@;
        let value = pop_batch(queue, &mut self.buffer);
        proof {
            assert(take_batch(found, old(self).buffered()) == (
                value,
                Seq::<T>::empty(),
                self.buffered(),
            ));
        }
        value
    }
}

/// A new channel: the consumer, and one producer whose link points at the
/// shared state that the consumer owns, with nothing sent yet.
pub fn channel<T>() -> (ends: (Sender<T>, Receiver<T>))
    ensures
        ends.1.buffered() == Seq::<T>::empty(),
        ends.0.target() == ends.1.shared(),
{
    let shared = Arc::new(Shared { queue: Mutex::new(VecDeque::new()), available: Condvar::new() });
    (Sender { shared: downgrade(&shared) }, Receiver { shared, buffer: VecDeque::new() })
}

} // verus!
