//! The channel as a sequential state machine.
//!
//! The model takes each operation on a channel as one indivisible step. For
//! the shared queue that is what the lock gives, in both variants, and for
//! the number of producers it holds of the variant that counts them under the
//! lock: a concurrent run of that variant is some sequence of the steps
//! below. The variant that counts weak links reads and changes that number
//! outside the lock, so while a producer is being cloned or dropped another
//! thread may see a number that no state of the model has; the model
//! describes its runs only where no other operation overlaps such a step.
//! What holds of every sequence of steps is proved in `laws`.
use vstd::prelude::*;

verus! {

/// Whether a consumer that holds the lock and finds `queue` has to wait:
/// there is nothing to take, and a producer is left that may still send.
pub open spec fn must_wait<T>(queue: Seq<T>, producers: nat) -> bool {
    queue.len() == 0 && producers > 0
}

/// The number of live producers after one of `producers` has gone.
pub open spec fn one_less(producers: nat) -> nat {
    if producers > 0 {
        (producers - 1) as nat
    } else {
        0
    }
}

/// Taking from the local buffer alone: the value taken, if any, and the
/// buffer that is left.
pub open spec fn take_local<T>(buffer: Seq<T>) -> (Option<T>, Seq<T>) {
    if buffer.len() > 0 {
        (Some(buffer[0]), buffer.skip(1))
    } else {
        (None, buffer)
    }
}

/// Taking a whole batch from the shared queue: the value taken, if any, then
/// the shared queue and the local buffer that are left. A queue that holds
/// something gives up its first value and changes places with the buffer.
pub open spec fn take_batch<T>(queue: Seq<T>, buffer: Seq<T>) -> (Option<T>, Seq<T>, Seq<T>) {
    if queue.len() > 0 {
        (Some(queue[0]), buffer, queue.skip(1))
    } else {
        (None, queue, buffer)
    }
}

/// What one call of `recv` comes to.
pub enum Reply<T> {
    /// It returns this value.
    Value(T),
    /// It returns no value: the stream has ended.
    Closed,
    /// It blocks until a producer sends or the last producer goes.
    Wait,
}

/// One step of a channel.
pub enum Event<T> {
    /// A producer sends a value.
    Send(T),
    /// A producer handle is cloned.
    CloneProducer,
    /// A producer handle is dropped.
    DropProducer,
    /// The consumer asks for a value.
    Recv,
}

/// What the lock guards, together with the number of producers.
pub struct SharedState<T> {
    /// The shared queue, oldest value first.
    pub queue: Seq<T>,
    /// The number of live producer handles.
    pub producers: nat,
}

impl<T> SharedState<T> {
    /// The shared state of a new channel: nothing queued, one producer.
    pub open spec fn fresh() -> Self {
        SharedState { queue: Seq::empty(), producers: 1 }
    }

    /// A value joins the queue at its tail.
    pub open spec fn send(self, value: T) -> Self {
        SharedState { queue: self.queue.push(value), ..self }
    }

    /// One producer more.
    pub open spec fn clone_producer(self) -> Self {
        SharedState { producers: self.producers + 1, ..self }
    }

    /// One producer less.
    pub open spec fn drop_producer(self) -> Self {
        SharedState { producers: one_less(self.producers), ..self }
    }

    /// A consumer that finds this state under the lock has to wait.
    pub open spec fn must_wait(self) -> bool {
        must_wait(self.queue, self.producers)
    }
}

/// A channel at one instant.
pub struct ChannelState<T> {
    /// What the producers and the consumer share.
    pub shared: SharedState<T>,
    /// The consumer's local buffer, oldest value first.
    pub buffer: Seq<T>,
}

impl<T> ChannelState<T> {
    /// A channel as `channel` makes it: empty, with one producer.
    pub open spec fn fresh() -> Self {
        ChannelState { shared: SharedState::fresh(), buffer: Seq::empty() }
    }

    /// The values sent and not yet received, oldest first.
    pub open spec fn pending(self) -> Seq<T> {
        self.buffer + self.shared.queue
    }

    /// No producer is left and nothing is pending.
    pub open spec fn closed(self) -> bool {
        self.shared.producers == 0 && self.pending().len() == 0
    }

    pub open spec fn send(self, value: T) -> Self {
        ChannelState { shared: self.shared.send(value), ..self }
    }

    pub open spec fn clone_producer(self) -> Self {
        ChannelState { shared: self.shared.clone_producer(), ..self }
    }

    pub open spec fn drop_producer(self) -> Self {
        ChannelState { shared: self.shared.drop_producer(), ..self }
    }

    /// What `recv` comes to in this state.
    pub open spec fn reply(self) -> Reply<T> {
        if self.buffer.len() > 0 {
            Reply::Value(take_local(self.buffer).0->0)
        } else if self.shared.queue.len() > 0 {
            Reply::Value(take_batch(self.shared.queue, self.buffer).0->0)
        } else if self.shared.must_wait() {
            Reply::Wait
        } else {
            Reply::Closed
        }
    }

    /// The state that `recv` leaves: unchanged where it took nothing.
    pub open spec fn recv(self) -> Self {
        if self.buffer.len() > 0 {
            ChannelState { buffer: take_local(self.buffer).1, ..self }
        } else {
            let taken = take_batch(self.shared.queue, self.buffer);
            ChannelState { shared: SharedState { queue: taken.1, ..self.shared }, buffer: taken.2 }
        }
    }

    pub open spec fn step(self, event: Event<T>) -> Self {
        match event {
            Event::Send(value) => self.send(value),
            Event::CloneProducer => self.clone_producer(),
            Event::DropProducer => self.drop_producer(),
            Event::Recv => self.recv(),
        }
    }

    /// The state after `events`, in order.
    pub open spec fn run(self, events: Seq<Event<T>>) -> Self
        decreases events.len(),
    {
        if events.len() == 0 {
            self
        } else {
            self.step(events[0]).run(events.skip(1))
        }
    }

    /// What the `Recv` events among `events` come to, in order.
    pub open spec fn replies(self, events: Seq<Event<T>>) -> Seq<Reply<T>>
        decreases events.len(),
    {
        if events.len() == 0 {
            Seq::empty()
        } else {
            let rest = self.step(events[0]).replies(events.skip(1));
            if events[0] is Recv {
                seq![self.reply()] + rest
            } else {
                rest
            }
        }
    }

    /// Every step of `events` that a producer takes finds a producer alive
    /// to take it.
    pub open spec fn admits(self, events: Seq<Event<T>>) -> bool
        decreases events.len(),
    {
        events.len() > 0 ==> {
            &&& events[0] is Recv || self.shared.producers > 0
            &&& self.step(events[0]).admits(events.skip(1))
        }
    }
}

/// The values that `events` send, in order.
pub open spec fn sent<T>(events: Seq<Event<T>>) -> Seq<T>
    decreases events.len(),
{
    if events.len() == 0 {
        Seq::empty()
    } else {
        let rest = sent(events.skip(1));
        match events[0] {
            Event::Send(value) => seq![value] + rest,
            _ => rest,
        }
    }
}

/// How many of `events` clone a producer, less how many drop one.
pub open spec fn handles_gained<T>(events: Seq<Event<T>>) -> int
    decreases events.len(),
{
    if events.len() == 0 {
        0
    } else {
        let rest = handles_gained(events.skip(1));
        match events[0] {
            Event::CloneProducer => rest + 1,
            Event::DropProducer => rest - 1,
            _ => rest,
        }
    }
}

/// None of `events` is a `Recv`.
pub open spec fn producers_only<T>(events: Seq<Event<T>>) -> bool {
    forall|i: int| 0 <= i < events.len() ==> !(#[trigger] events[i] is Recv)
}

/// One `Send` for each of `values`, in order.
pub open spec fn sends<T>(values: Seq<T>) -> Seq<Event<T>> {
    Seq::new(values.len(), |i: int| Event::Send(values[i]))
}

/// `n` times `Recv`.
pub open spec fn recvs<T>(n: nat) -> Seq<Event<T>> {
    Seq::new(n, |i: int| Event::Recv)
}

/// Each of `values` sent and received before the next is sent.
pub open spec fn one_at_a_time<T>(values: Seq<T>) -> Seq<Event<T>> {
    Seq::new(
        2 * values.len(),
        |i: int|
            if i % 2 == 0 {
                Event::Send(values[i / 2])
            } else {
                Event::Recv
            },
    )
}

/// The values that `replies` hand to the consumer, in order.
pub open spec fn received<T>(replies: Seq<Reply<T>>) -> Seq<T>
    decreases replies.len(),
{
    if replies.len() == 0 {
        Seq::empty()
    } else {
        let rest = received(replies.skip(1));
        match replies[0] {
            Reply::Value(value) => seq![value] + rest,
            _ => rest,
        }
    }
}

/// Each of `values` as the reply that delivers it.
pub open spec fn delivered<T>(values: Seq<T>) -> Seq<Reply<T>> {
    Seq::new(values.len(), |i: int| Reply::Value(values[i]))
}

} // verus!
