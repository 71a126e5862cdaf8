//! The job queue shared by a producer and its consumer threads.
//!
//! The producer puts each value at the front and the consumers take from the
//! front, so the most recent value is served first. A consumer that finds the
//! queue empty waits until the producer notifies it.

use vstd::prelude::*;

verus! {

/// The queue after `value` is put in.
pub open spec fn queue_after_push(queue: Seq<u32>, value: u32) -> Seq<u32> {
    seq![value] + queue
}

/// What taking from a queue gives, and the queue left behind.
pub open spec fn queue_after_take(queue: Seq<u32>) -> (Option<u32>, Seq<u32>) {
    if queue.len() == 0 {
        (None, queue)
    } else {
        (Some(queue[0]), queue.subrange(1, queue.len() as int))
    }
}

/// The values waiting for a consumer.
pub struct Shared {
    queue: std::collections::VecDeque<u32>,
}

impl View for Shared {
    type V = Seq<u32>;

    closed spec fn view(&self) -> Seq<u32> {
        self.queue@
    }
}

impl Shared {
    /// An empty queue.
    pub fn new() -> (s: Self)
        ensures
            s@ == Seq::<u32>::empty(),
    {
        Shared { queue: std::collections::VecDeque::new() }
    }

    /// Whether no value is waiting (a consumer then waits).
    pub fn is_empty(&self) -> (b: bool)
        ensures
            b == (self@.len() == 0),
    {
        self.queue.len() == 0
    }

    /// Puts a value at the front of the queue.
    pub fn push(&mut self, value: u32)
        ensures
            final(self)@ == queue_after_push(old(self)@, value),
            final(self)@ == seq![value] + old(self)@,
    {
        self.queue.push_front(value);
    }

    /// Takes the value at the front of the queue, if any.
    pub fn take(&mut self) -> (value: Option<u32>)
        ensures
            (value, final(self)@) == queue_after_take(old(self)@),
            old(self)@.len() == 0 ==> value is None && final(self)@ == old(self)@,
            old(self)@.len() > 0 ==> value == Some(old(self)@[0]) && old(self)@ == seq![old(self)@[0]] + final(self)@,
    {
        self.queue.pop_front()
    }
}

/// The value taken right after a push is the one pushed, and the queue is
/// then as it was before the push.
pub proof fn lemma_take_after_push(queue: Seq<u32>, value: u32)
    ensures
        queue_after_take(queue_after_push(queue, value)) == (Some(value), queue),
{
    assert(queue_after_push(queue, value).subrange(1, queue.len() as int + 1) =~= queue);
}

/// Values pushed one after another into an empty queue wait in the reverse
/// order of their pushes, so the most recent is taken first.
pub proof fn lemma_pushes_are_taken_in_reverse(values: Seq<u32>)
    ensures
        pushed_all(Seq::empty(), values) == values.reverse(),
    decreases values.len(),
{
    if values.len() > 0 {
        lemma_pushes_are_taken_in_reverse(values.drop_last());
        assert(values.reverse() =~= seq![values.last()] + values.drop_last().reverse());
    }
}

/// The queue after each of `values` is pushed in order.
pub open spec fn pushed_all(queue: Seq<u32>, values: Seq<u32>) -> Seq<u32>
    decreases values.len(),
{
    if values.len() == 0 {
        queue
    } else {
        queue_after_push(pushed_all(queue, values.drop_last()), values.last())
    }
}

} // verus!
