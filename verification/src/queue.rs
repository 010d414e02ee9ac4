//! The steps that producers and the consumer take on the two queues, on plain
//! values: the handles of both variants run them on what the lock guards.
use crate::model::{must_wait, take_batch, take_local};
use std::collections::VecDeque;
use vstd::prelude::*;

verus! {

/// Puts `value` at the tail of the shared queue, behind all that was sent
/// before it.
pub fn push_newest<T>(queue: &mut VecDeque<T>, value: T)
    ensures
        final(queue)@ == old(queue)@.push(value),
{
    queue.push_back(value);
}

/// Takes the oldest value of the consumer's own buffer, if it holds one.
pub fn pop_local<T>(buffer: &mut VecDeque<T>) -> (value: Option<T>)
    ensures
        (value, final(buffer)@) == take_local(old(buffer)@),
{
    let value = buffer.pop_front();
    proof {
        assert(old(buffer)@.skip(1) =~= old(buffer)@.subrange(1, old(buffer)@.len() as int));
    }
    value
}

/// Takes the oldest value of the shared queue and moves all that follows it
/// into the consumer's buffer, by letting the two change places. An empty
/// queue gives `None` and leaves both as they are.
pub fn pop_batch<T>(queue: &mut VecDeque<T>, buffer: &mut VecDeque<T>) -> (value: Option<T>)
    ensures
        (value, final(queue)@, final(buffer)@) == take_batch(old(queue)@, old(buffer)@),
{
    let value = queue.pop_front();
    if value.is_some() {
        proof {
            assert(old(queue)@.skip(1) =~= old(queue)@.subrange(1, old(queue)@.len() as int));
        }
        std::mem::swap(buffer, queue);
    }
    value
}

/// Whether the consumer, having found `queue` under the lock while
/// `producers` producers are alive, must wait for a signal.
pub fn shall_wait<T>(queue: &VecDeque<T>, producers: usize) -> (wait: bool)
    ensures
        wait == must_wait(queue@, producers as nat),
{
    queue.len() == 0 && producers > 0
}

} // verus!
