//! The task queue: first in, first out, with an end.
//!
//! Whoever holds the queue exclusively may claim from it, so no task is ever
//! handed out twice. Nothing here blocks: where a blocking queue would make
//! the caller wait, `claim` answers [`Claim::Pending`].

use std::collections::VecDeque;
use vstd::prelude::*;

verus! {

/// A queue of tasks that its producer can close.
pub struct TaskQueue<T> {
    items: VecDeque<T>,
    closed: bool,
}

/// The mathematical content of a [`TaskQueue`].
pub struct TaskQueueView<T> {
    /// The tasks that wait, oldest first.
    pub pending: Seq<T>,
    /// Whether the producer has closed the queue.
    pub closed: bool,
}

/// The answer to a claim.
pub enum Claim<T> {
    /// The oldest waiting task, which has left the queue.
    Task(T),
    /// Nothing waits, but the queue is still open: more may come.
    Pending,
    /// Nothing waits and nothing will come.
    Closed,
}

impl<T> View for TaskQueue<T> {
    type V = TaskQueueView<T>;

    closed spec fn view(&self) -> TaskQueueView<T> {
        TaskQueueView { pending: self.items@, closed: self.closed }
    }
}

impl<T> TaskQueue<T> {
    /// An open queue in which nothing waits.
    pub fn new() -> (queue: Self)
        ensures
            queue@ == (TaskQueueView { pending: Seq::<T>::empty(), closed: false }),
    {
        TaskQueue { items: VecDeque::new(), closed: false }
    }

    /// Appends `task`. The queue has no bound, so this never has to wait.
    pub fn enqueue(&mut self, task: T)
        requires
            !old(self)@.closed,
        ensures
            final(self)@ == (TaskQueueView {
                pending: old(self)@.pending.push(task),
                closed: false,
            }),
    {
        self.items.push_back(task);
    }

    /// Closes the queue: what waits can still be claimed, nothing can be added.
    pub fn close(&mut self)
        ensures
            final(self)@ == (TaskQueueView { pending: old(self)@.pending, closed: true }),
    {
        self.closed = true;
    }

    /// Hands out the oldest waiting task, if there is one; else says whether
    /// more may come.
    pub fn claim(&mut self) -> (claim: Claim<T>)
        ensures
            final(self)@.closed == old(self)@.closed,
            old(self)@.pending.len() > 0 ==> {
                &&& claim == Claim::Task(old(self)@.pending[0])
                &&& final(self)@.pending == old(self)@.pending.drop_first()
            },
            old(self)@.pending.len() == 0 ==> {
                &&& final(self)@.pending == old(self)@.pending
                &&& claim == if old(self)@.closed {
                    Claim::<T>::Closed
                } else {
                    Claim::<T>::Pending
                }
            },
    {
        match self.items.pop_front() {
            Some(task) => Claim::Task(task),
            None => if self.closed {
                Claim::Closed
            } else {
                Claim::Pending
            },
        }
    }

    /// How many tasks wait.
    pub fn len(&self) -> (n: usize)
        ensures
            n == self@.pending.len(),
    {
        self.items.len()
    }

    /// Whether the producer has closed the queue.
    pub fn is_closed(&self) -> (closed: bool)
        ensures
            closed == self@.closed,
    {
        self.closed
    }
}

} // verus!
