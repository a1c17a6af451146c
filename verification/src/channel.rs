//! The result channel: many producers, one collector.
//!
//! Results leave in the order in which they arrived; none is dropped and none
//! is handed out twice. The channel counts its producer handles: once the last
//! one is released and the buffer is empty, the channel is closed for good.

use crate::task::TaskResult;
use std::collections::VecDeque;
use vstd::prelude::*;

verus! {

/// A buffer of results together with the number of producer handles in use.
pub struct ResultChannel {
    buffer: VecDeque<TaskResult>,
    producers: usize,
}

/// The mathematical content of a [`ResultChannel`].
pub struct ResultChannelView {
    /// The results that wait for the collector, oldest first.
    pub buffered: Seq<TaskResult>,
    /// The producer handles that are still held.
    pub producers: nat,
}

/// The answer to a receive.
pub enum Received {
    /// The oldest waiting result, which has left the channel.
    Result(TaskResult),
    /// Nothing waits, but a producer is left: more may come.
    Pending,
    /// Nothing waits and no producer is left.
    Closed,
}

impl View for ResultChannel {
    type V = ResultChannelView;

    closed spec fn view(&self) -> ResultChannelView {
        ResultChannelView { buffered: self.buffer@, producers: self.producers as nat }
    }
}

impl ResultChannel {
    /// An empty channel with one producer handle, held by whoever made it.
    pub fn new() -> (channel: Self)
        ensures
            channel@ == (ResultChannelView { buffered: Seq::<TaskResult>::empty(), producers: 1 }),
    {
        ResultChannel { buffer: VecDeque::new(), producers: 1 }
    }

    /// Hands out one more producer handle. Only a holder of a handle can do so.
    pub fn add_producer(&mut self)
        requires
            0 < old(self)@.producers < usize::MAX,
        ensures
            final(self)@ == (ResultChannelView {
                buffered: old(self)@.buffered,
                producers: old(self)@.producers + 1,
            }),
    {
        self.producers = self.producers + 1;
    }

    /// Gives one producer handle back.
    pub fn release(&mut self)
        requires
            old(self)@.producers > 0,
        ensures
            final(self)@ == (ResultChannelView {
                buffered: old(self)@.buffered,
                producers: (old(self)@.producers - 1) as nat,
            }),
    {
        self.producers = self.producers - 1;
    }

    /// Appends `result`. Only a holder of a producer handle can send.
    pub fn send(&mut self, result: TaskResult)
        requires
            old(self)@.producers > 0,
        ensures
            final(self)@ == (ResultChannelView {
                buffered: old(self)@.buffered.push(result),
                producers: old(self)@.producers,
            }),
    {
        self.buffer.push_back(result);
    }

    /// Hands out the oldest waiting result, if there is one; else says whether
    /// more may come.
    pub fn receive(&mut self) -> (received: Received)
        ensures
            final(self)@.producers == old(self)@.producers,
            old(self)@.buffered.len() > 0 ==> {
                &&& received == Received::Result(old(self)@.buffered[0])
                &&& final(self)@.buffered == old(self)@.buffered.drop_first()
            },
            old(self)@.buffered.len() == 0 ==> {
                &&& final(self)@.buffered == old(self)@.buffered
                &&& received == if old(self)@.producers == 0 {
                    Received::Closed
                } else {
                    Received::Pending
                }
            },
    {
        match self.buffer.pop_front() {
            Some(result) => Received::Result(result),
            None => if self.producers == 0 {
                Received::Closed
            } else {
                Received::Pending
            },
        }
    }

    /// Once every producer handle is released: all results that wait, oldest
    /// first. The channel is empty afterwards and stays so.
    pub fn receive_all(&mut self) -> (results: Vec<TaskResult>)
        requires
            old(self)@.producers == 0,
        ensures
            results@ == old(self)@.buffered,
            final(self)@ == (ResultChannelView {
                buffered: Seq::<TaskResult>::empty(),
                producers: 0,
            }),
    {
        let mut results: Vec<TaskResult> = Vec::new();
        while self.buffer.len() > 0
            invariant
                self.producers == 0,
                results@ + self.buffer@ == old(self).buffer@,
            decreases self.buffer.len(),
        {
            match self.buffer.pop_front() {
                Some(result) => {
                    results.push(result);
                    assert(results@ + self.buffer@ =~= old(self).buffer@);
                },
                None => {},
            }
        }
        assert(self.buffer@ =~= Seq::<TaskResult>::empty());
        results
    }

    /// How many results wait.
    pub fn len(&self) -> (n: usize)
        ensures
            n == self@.buffered.len(),
    {
        self.buffer.len()
    }

    /// How many producer handles are still held.
    pub fn producers(&self) -> (n: usize)
        ensures
            n == self@.producers,
    {
        self.producers
    }
}

} // verus!
