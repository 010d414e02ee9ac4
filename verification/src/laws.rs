//! What holds of every channel, proved of the state machine in `model`.
use crate::model::{
    delivered, handles_gained, one_at_a_time, producers_only, received, recvs, sends, sent,
    ChannelState, Event, Reply,
};
use vstd::prelude::*;

verus! {

/// A value that is sent becomes the newest pending value; the producers stay
/// as they are.
pub proof fn send_appends<T>(state: ChannelState<T>, value: T)
    ensures
        state.send(value).pending() == state.pending().push(value),
        state.send(value).shared.producers == state.shared.producers,
{
    assert(state.send(value).pending() =~= state.pending().push(value));
}

/// While something is pending, `recv` returns the oldest pending value and
/// takes exactly that value away, wherever the values are held.
pub proof fn recv_takes_oldest<T>(state: ChannelState<T>)
    requires
        state.pending().len() > 0,
    ensures
        state.reply() == Reply::Value(state.pending()[0]),
        state.recv().pending() == state.pending().skip(1),
        state.recv().shared.producers == state.shared.producers,
{
    assert(state.recv().pending() =~= state.pending().skip(1));
}

/// While nothing is pending, `recv` changes nothing: it waits as long as a
/// producer is alive, and reports the end of the stream once none is.
pub proof fn recv_of_nothing<T>(state: ChannelState<T>)
    requires
        state.pending().len() == 0,
    ensures
        state.recv() == state,
        state.shared.producers > 0 ==> state.reply() == Reply::<T>::Wait,
        state.shared.producers == 0 ==> state.reply() == Reply::<T>::Closed,
{
    assert(state.recv().shared.queue =~= state.shared.queue);
    assert(state.recv().buffer =~= state.buffer);
}

/// A channel without producers never makes the consumer wait.
pub proof fn no_wait_without_producers<T>(state: ChannelState<T>)
    requires
        state.shared.producers == 0,
    ensures
        state.reply() != Reply::<T>::Wait,
{
}

/// Running one sequence of steps after another is running both in a row.
pub proof fn run_in_parts<T>(state: ChannelState<T>, first: Seq<Event<T>>, second: Seq<Event<T>>)
    ensures
        state.run(first + second) == state.run(first).run(second),
        state.replies(first + second) == state.replies(first) + state.run(first).replies(second),
        state.admits(first + second) == (state.admits(first) && state.run(first).admits(second)),
    decreases first.len(),
{
    if first.len() == 0 {
        assert(first + second =~= second);
        assert(state.replies(first) + state.run(first).replies(second) =~= state.replies(second));
    } else {
        let all = first + second;
        assert(all[0] == first[0]);
        assert(all.skip(1) =~= first.skip(1) + second);
        let next = state.step(first[0]);
        run_in_parts(next, first.skip(1), second);
        assert(state.replies(all) =~= state.replies(first) + state.run(first).replies(second));
    }
}

/// As long as every producer's step finds a producer alive, the number of
/// producers is the number at the start, plus the clones, less the drops.
pub proof fn handles_are_counted<T>(state: ChannelState<T>, events: Seq<Event<T>>)
    requires
        state.admits(events),
    ensures
        state.run(events).shared.producers == state.shared.producers + handles_gained(events),
    decreases events.len(),
{
    if events.len() > 0 {
        handles_are_counted(state.step(events[0]), events.skip(1));
    }
}

/// Steps of producers alone lose nothing and reorder nothing: what is pending
/// afterwards is what was pending before, followed by the values sent, in the
/// order in which they were sent.
pub proof fn sends_accumulate<T>(state: ChannelState<T>, events: Seq<Event<T>>)
    requires
        producers_only(events),
    ensures
        state.run(events).pending() == state.pending() + sent(events),
        state.replies(events) == Seq::<Reply<T>>::empty(),
    decreases events.len(),
{
    if events.len() == 0 {
        assert(state.pending() + sent(events) =~= state.pending());
    } else {
        let next = state.step(events[0]);
        let rest = events.skip(1);
        assert(!(events[0] is Recv));
        assert forall|i: int| 0 <= i < rest.len() implies !(#[trigger] rest[i] is Recv) by {
            assert(rest[i] == events[i + 1]);
        }
        sends_accumulate(next, rest);
        match events[0] {
            Event::Send(value) => {
                send_appends(state, value);
                assert(state.pending().push(value) + sent(rest) =~= state.pending() + (seq![value]
                    + sent(rest)));
            },
            _ => {
                assert(next.pending() =~= state.pending());
            },
        }
    }
}

/// The values that a row of sends sends are the values it was made from.
pub proof fn sends_send_their_values<T>(values: Seq<T>)
    ensures
        producers_only(sends(values)),
        sent(sends(values)) == values,
    decreases values.len(),
{
    let events = sends(values);
    if values.len() == 0 {
        assert(sent(events) =~= values);
    } else {
        sends_send_their_values(values.skip(1));
        assert(events.skip(1) =~= sends(values.skip(1)));
        assert(events[0] == Event::Send(values[0]));
        assert(seq![values[0]] + values.skip(1) =~= values);
    }
}

/// A row of `n` calls of `recv`, with at least `n` values pending, returns
/// the `n` oldest pending values, oldest first, and leaves the others
/// pending in their order.
pub proof fn recv_in_order<T>(state: ChannelState<T>, n: nat)
    requires
        n <= state.pending().len(),
    ensures
        state.replies(recvs(n)) == delivered(state.pending().take(n as int)),
        state.run(recvs(n)).pending() == state.pending().skip(n as int),
        state.run(recvs(n)).shared.producers == state.shared.producers,
    decreases n,
{
    let events = recvs::<T>(n);
    if n == 0 {
        assert(state.replies(events) =~= delivered(state.pending().take(0)));
        assert(state.pending().skip(0) =~= state.pending());
    } else {
        let next = state.recv();
        let fewer = (n - 1) as nat;
        recv_takes_oldest(state);
        assert(events[0] is Recv);
        assert(events.skip(1) =~= recvs::<T>(fewer));
        recv_in_order(next, fewer);
        assert(state.pending().skip(1).skip(fewer as int) =~= state.pending().skip(n as int));
        assert(seq![state.reply()] + delivered(state.pending().skip(1).take(fewer as int))
            =~= delivered(state.pending().take(n as int)));
    }
}

/// First in, first out: after any values have been sent, as many calls of
/// `recv` as there are pending values return what was pending before,
/// followed by the values sent, each once and in the order of sending.
pub proof fn first_in_first_out<T>(state: ChannelState<T>, values: Seq<T>)
    ensures
        state.replies(sends(values) + recvs((state.pending() + values).len())) == delivered(
            state.pending() + values,
        ),
        ChannelState::<T>::fresh().replies(sends(values) + recvs(values.len())) == delivered(
            values,
        ),
{
    fifo_from(state, values);
    let fresh = ChannelState::<T>::fresh();
    fifo_from(fresh, values);
    assert(fresh.pending() + values =~= values);
}

proof fn fifo_from<T>(state: ChannelState<T>, values: Seq<T>)
    ensures
        state.replies(sends(values) + recvs((state.pending() + values).len())) == delivered(
            state.pending() + values,
        ),
{
    let all = state.pending() + values;
    sends_send_their_values(values);
    sends_accumulate(state, sends(values));
    run_in_parts(state, sends(values), recvs(all.len()));
    recv_in_order(state.run(sends(values)), all.len());
    assert(all.take(all.len() as int) =~= all);
    assert(Seq::<Reply<T>>::empty() + delivered(all) =~= delivered(all));
}

/// Every value once, then the end: when producers have sent, cloned and
/// dropped in any order until none of them is left, the consumer receives
/// what was pending and then every value sent, each once and in the order of
/// sending, and the call after the last value returns no value.
pub proof fn all_values_then_closed<T>(state: ChannelState<T>, events: Seq<Event<T>>)
    requires
        producers_only(events),
        state.run(events).shared.producers == 0,
    ensures
        state.replies(events + recvs((state.pending() + sent(events)).len() + 1)) == delivered(
            state.pending() + sent(events),
        ).push(Reply::Closed),
        state.run(events + recvs((state.pending() + sent(events)).len() + 1)).closed(),
{
    let all = state.pending() + sent(events);
    let n = all.len();
    let after = state.run(events);
    let drained = after.run(recvs(n));
    sends_accumulate(state, events);
    recv_in_order(after, n);
    assert(all.take(n as int) =~= all);
    assert(all.skip(n as int) =~= Seq::<T>::empty());
    recv_of_nothing(drained);
    let last = recvs::<T>(1);
    assert(last[0] is Recv);
    assert(drained.replies(last.skip(1)) =~= Seq::<Reply<T>>::empty());
    assert(drained.replies(last) =~= seq![Reply::<T>::Closed]);
    assert(drained.step(last[0]).run(last.skip(1)) == drained);
    assert(recvs::<T>(n) + last =~= recvs::<T>(n + 1));
    run_in_parts(after, recvs(n), last);
    run_in_parts(state, events, recvs(n + 1));
    assert(Seq::<Reply<T>>::empty() + (delivered(all) + seq![Reply::<T>::Closed]) =~= delivered(
        all,
    ).push(Reply::Closed));
}

/// The values received through two rows of replies are those of the first
/// row followed by those of the second.
pub proof fn received_in_parts<T>(first: Seq<Reply<T>>, second: Seq<Reply<T>>)
    ensures
        received(first + second) == received(first) + received(second),
    decreases first.len(),
{
    if first.len() == 0 {
        assert(first + second =~= second);
        assert(received(first) + received(second) =~= received(second));
    } else {
        let all = first + second;
        assert(all[0] == first[0]);
        assert(all.skip(1) =~= first.skip(1) + second);
        received_in_parts(first.skip(1), second);
        assert(received(all) =~= received(first) + received(second));
    }
}

/// The replies that deliver `values` hand over `values`.
pub proof fn delivered_is_received<T>(values: Seq<T>)
    ensures
        received(delivered(values)) == values,
    decreases values.len(),
{
    let replies = delivered(values);
    if values.len() == 0 {
        assert(received(replies) =~= values);
    } else {
        delivered_is_received(values.skip(1));
        assert(replies.skip(1) =~= delivered(values.skip(1)));
        assert(replies[0] == Reply::Value(values[0]));
        assert(seq![values[0]] + values.skip(1) =~= values);
    }
}

/// Nothing is lost and nothing comes twice, whatever the order of the steps:
/// at every moment the values received so far, followed by the values still
/// pending, are the values that were pending at the start followed by the
/// values sent since, in the order of sending.
pub proof fn every_value_once<T>(state: ChannelState<T>, events: Seq<Event<T>>)
    ensures
        received(state.replies(events)) + state.run(events).pending() == state.pending() + sent(
            events,
        ),
    decreases events.len(),
{
    if events.len() == 0 {
        assert(received(state.replies(events)) + state.pending() =~= state.pending() + sent(
            events,
        ));
    } else {
        let event = events[0];
        let next = state.step(event);
        let rest = events.skip(1);
        every_value_once(next, rest);
        let later = received(next.replies(rest)) + next.run(rest).pending();
        assert(later == next.pending() + sent(rest));
        match event {
            Event::Send(value) => {
                send_appends(state, value);
                assert(state.pending().push(value) + sent(rest) =~= state.pending() + (seq![value]
                    + sent(rest)));
            },
            Event::Recv => {
                let replies = state.replies(events);
                assert(replies[0] == state.reply());
                assert(replies.skip(1) =~= next.replies(rest));
                if state.pending().len() > 0 {
                    recv_takes_oldest(state);
                    let oldest = state.pending()[0];
                    assert(received(replies) == seq![oldest] + received(next.replies(rest)));
                    assert((seq![oldest] + received(next.replies(rest))) + next.run(
                        rest,
                    ).pending() =~= seq![oldest] + later);
                    assert(seq![oldest] + (state.pending().skip(1) + sent(rest))
                        =~= state.pending() + sent(rest));
                } else {
                    recv_of_nothing(state);
                    assert(received(replies) == received(next.replies(rest)));
                }
            },
            _ => {
                assert(next.pending() =~= state.pending());
            },
        }
    }
}

/// Every value once, then the end, whatever the order of the steps: when
/// producers have sent, cloned and dropped while the consumer received, in
/// any order, and no producer is left, then one call of `recv` for each value
/// still pending and one more complete the stream. Over the whole run the
/// consumer has received what was pending at the start and then every value
/// sent, each once and in the order of sending; none of the closing calls
/// waits, and the last of them returns no value.
pub proof fn all_values_in_any_order<T>(state: ChannelState<T>, events: Seq<Event<T>>)
    requires
        state.run(events).shared.producers == 0,
    ensures
        received(state.replies(events + recvs(state.run(events).pending().len() + 1)))
            == state.pending() + sent(events),
        state.run(events).replies(recvs(state.run(events).pending().len() + 1)) == delivered(
            state.run(events).pending(),
        ).push(Reply::Closed),
        state.run(events + recvs(state.run(events).pending().len() + 1)).closed(),
{
    let after = state.run(events);
    let left = after.pending();
    let closing = recvs::<T>(left.len() + 1);
    let none = Seq::<Event<T>>::empty();
    assert(producers_only(none));
    assert(sent(none) =~= Seq::<T>::empty());
    assert(left + sent(none) =~= left);
    assert(none + closing =~= closing);
    all_values_then_closed(after, none);
    assert(after.replies(closing) == delivered(left).push(Reply::Closed));
    every_value_once(state, events);
    run_in_parts(state, events, closing);
    received_in_parts(state.replies(events), after.replies(closing));
    assert(delivered(left).push(Reply::Closed) =~= delivered(left) + seq![Reply::<T>::Closed]);
    received_in_parts(delivered(left), seq![Reply::<T>::Closed]);
    delivered_is_received(left);
    let end = seq![Reply::<T>::Closed];
    assert(received(end.skip(1)) =~= Seq::<T>::empty());
    assert(received(end) =~= Seq::<T>::empty());
    assert(left + received(end) =~= left);
}

/// Once no producer is left and nothing is pending, every call of `recv`
/// returns no value, none of them waits, and the channel stays as it is.
pub proof fn closed_stays_closed<T>(state: ChannelState<T>, n: nat)
    requires
        state.closed(),
    ensures
        state.reply() == Reply::<T>::Closed,
        state.recv() == state,
        state.run(recvs(n)) == state,
        state.replies(recvs(n)) == Seq::new(n, |i: int| Reply::<T>::Closed),
    decreases n,
{
    let events = recvs::<T>(n);
    recv_of_nothing(state);
    if n == 0 {
        assert(state.replies(events) =~= Seq::new(n, |i: int| Reply::<T>::Closed));
    } else {
        let fewer = (n - 1) as nat;
        assert(events[0] is Recv);
        assert(events.skip(1) =~= recvs::<T>(fewer));
        closed_stays_closed(state, fewer);
        assert(seq![Reply::<T>::Closed] + Seq::new(fewer, |i: int| Reply::<T>::Closed) =~= Seq::new(
            n,
            |i: int| Reply::<T>::Closed,
        ));
    }
}

/// Two channels with the same pending values and the same number of
/// producers cannot be told apart, however the values are split between the
/// shared queue and the local buffer.
pub open spec fn alike<T>(one: ChannelState<T>, other: ChannelState<T>) -> bool {
    one.pending() == other.pending() && one.shared.producers == other.shared.producers
}

/// The local buffer cannot be observed: channels that are alike give the same
/// replies to the same steps, and are alike afterwards.
pub proof fn buffer_is_transparent<T>(
    one: ChannelState<T>,
    other: ChannelState<T>,
    events: Seq<Event<T>>,
)
    requires
        alike(one, other),
    ensures
        one.replies(events) == other.replies(events),
        alike(one.run(events), other.run(events)),
        one.admits(events) == other.admits(events),
    decreases events.len(),
{
    if events.len() > 0 {
        let event = events[0];
        match event {
            Event::Send(value) => {
                send_appends(one, value);
                send_appends(other, value);
            },
            Event::Recv => {
                if one.pending().len() > 0 {
                    recv_takes_oldest(one);
                    recv_takes_oldest(other);
                } else {
                    recv_of_nothing(one);
                    recv_of_nothing(other);
                }
            },
            _ => {
                assert(one.step(event).pending() =~= one.pending());
                assert(other.step(event).pending() =~= other.pending());
            },
        }
        buffer_is_transparent(one.step(event), other.step(event), events.skip(1));
    }
}

/// Sending and receiving the values one at a time gives the consumer what
/// sending them all and receiving them afterwards gives: the values, in the
/// order of sending.
pub proof fn one_at_a_time_is_batch<T>(state: ChannelState<T>, values: Seq<T>)
    requires
        state.pending().len() == 0,
    ensures
        state.replies(one_at_a_time(values)) == delivered(values),
        state.replies(one_at_a_time(values)) == state.replies(
            sends(values) + recvs(values.len()),
        ),
    decreases values.len(),
{
    let events = one_at_a_time(values);
    fifo_from(state, values);
    assert(state.pending() + values =~= values);
    if values.len() == 0 {
        assert(state.replies(events) =~= delivered(values));
    } else {
        let first = seq![Event::Send(values[0]), Event::<T>::Recv];
        let rest = one_at_a_time(values.skip(1));
        assert(events =~= first + rest) by {
            assert(events.len() == (first + rest).len());
            assert forall|i: int| 0 <= i < events.len() implies events[i] == (first + rest)[i] by {
                if i >= 2 {
                    assert((i - 2) % 2 == i % 2);
                    assert((i - 2) / 2 == i / 2 - 1);
                }
            }
        }
        let sent_one = state.send(values[0]);
        send_appends(state, values[0]);
        recv_takes_oldest(sent_one);
        let back = sent_one.recv();
        assert(back.pending() =~= Seq::<T>::empty());
        let second = first.skip(1);
        assert(state.step(first[0]) == sent_one);
        assert(sent_one.step(second[0]) == back);
        assert(second.skip(1).len() == 0);
        assert(sent_one.run(second) == back.run(second.skip(1)));
        assert(state.run(first) == back);
        assert(second[0] is Recv);
        assert(back.replies(second.skip(1)) =~= Seq::<Reply<T>>::empty());
        assert(sent_one.reply() == Reply::Value(values[0]));
        assert(sent_one.replies(second) =~= seq![sent_one.reply()] + back.replies(
            second.skip(1),
        ));
        assert(sent_one.replies(second) =~= seq![Reply::Value(values[0])]);
        assert(state.replies(first) =~= seq![Reply::Value(values[0])]);
        run_in_parts(state, first, rest);
        one_at_a_time_is_batch(back, values.skip(1));
        assert(seq![Reply::Value(values[0])] + delivered(values.skip(1)) =~= delivered(values));
    }
}

} // verus!
