//! Running statistics: how many tasks completed, how many failed, and the time
//! the completed ones took.

use crate::task::{TaskResult, TaskResultView};
use vstd::prelude::*;

verus! {

/// How many of `results` are successes.
pub open spec fn successes(results: Seq<TaskResultView>) -> nat
    decreases results.len(),
{
    if results.len() == 0 {
        0
    } else {
        successes(results.drop_last()) + if results.last() is Success {
            1nat
        } else {
            0nat
        }
    }
}

/// How many of `results` are failures.
pub open spec fn failures(results: Seq<TaskResultView>) -> nat
    decreases results.len(),
{
    if results.len() == 0 {
        0
    } else {
        failures(results.drop_last()) + if results.last() is Error {
            1nat
        } else {
            0nat
        }
    }
}

/// The sum of the durations of the successes among `results`.
pub open spec fn total_duration(results: Seq<TaskResultView>) -> nat
    decreases results.len(),
{
    if results.len() == 0 {
        0
    } else {
        total_duration(results.drop_last()) + results.last().duration()
    }
}

/// Every result is a success or a failure, so the two counts add up to the length.
pub proof fn lemma_counts_partition(results: Seq<TaskResultView>)
    ensures
        successes(results) + failures(results) == results.len(),
    decreases results.len(),
{
    if results.len() > 0 {
        lemma_counts_partition(results.drop_last());
    }
}

/// What one more result adds to the three tallies.
pub proof fn lemma_tally_push(results: Seq<TaskResultView>, next: TaskResultView)
    ensures
        successes(results.push(next)) == successes(results) + if next is Success {
            1nat
        } else {
            0nat
        },
        failures(results.push(next)) == failures(results) + if next is Error {
            1nat
        } else {
            0nat
        },
        total_duration(results.push(next)) == total_duration(results) + next.duration(),
{
    assert(results.push(next).drop_last() =~= results);
}

/// If no success took longer than `bound`, the total is at most `bound` per result.
pub proof fn lemma_total_duration_bound(results: Seq<TaskResultView>, bound: nat)
    requires
        forall|i: int| 0 <= i < results.len() ==> (#[trigger] results[i]).duration() <= bound,
    ensures
        total_duration(results) <= results.len() * bound,
    decreases results.len(),
{
    if results.len() > 0 {
        let rest = results.drop_last();
        assert(forall|i: int| 0 <= i < rest.len() ==> (#[trigger] rest[i]).duration() <= bound);
        lemma_total_duration_bound(rest, bound);
        assert(results.len() * bound == rest.len() * bound + bound) by (nonlinear_arith)
            requires
                results.len() == rest.len() + 1,
        ;
    }
}

/// Statistics of a run, with the total time in 64 bits.
#[derive(Debug, Clone, Copy, PartialEq, Eq)]
pub struct Stats {
    pub completed: u32,
    pub failed: u32,
    pub total_time_ms: u64,
}

impl Stats {
    /// Whether the three fields are the tallies of `results`.
    pub open spec fn tallies(self, results: Seq<TaskResultView>) -> bool {
        &&& self.completed == successes(results)
        &&& self.failed == failures(results)
        &&& self.total_time_ms == total_duration(results)
    }

    /// Whether `result` can be recorded without a field running over.
    pub open spec fn has_room_for(self, result: TaskResultView) -> bool {
        match result {
            TaskResultView::Success { duration_ms, .. } => {
                &&& self.completed < u32::MAX
                &&& self.total_time_ms + duration_ms <= u64::MAX
            },
            TaskResultView::Error { .. } => self.failed < u32::MAX,
        }
    }

    /// The statistics after `result` is recorded: a success counts as completed
    /// and adds its duration, a failure counts as failed and adds nothing.
    pub open spec fn recorded(self, result: TaskResultView) -> Stats {
        match result {
            TaskResultView::Success { duration_ms, .. } => Stats {
                completed: (self.completed + 1) as u32,
                failed: self.failed,
                total_time_ms: (self.total_time_ms + duration_ms) as u64,
            },
            TaskResultView::Error { .. } => Stats {
                completed: self.completed,
                failed: (self.failed + 1) as u32,
                total_time_ms: self.total_time_ms,
            },
        }
    }

    /// Statistics of a run in which nothing has happened yet.
    pub fn new() -> (stats: Stats)
        ensures
            stats == (Stats { completed: 0, failed: 0, total_time_ms: 0 }),
            stats.tallies(Seq::empty()),
    {
        Stats { completed: 0, failed: 0, total_time_ms: 0 }
    }

    /// Tests whether [`Stats::record`] may be called with `result`.
    pub fn accepts(&self, result: &TaskResult) -> (yes: bool)
        ensures
            yes == self.has_room_for(result@),
    {
        match result {
            TaskResult::Success { duration_ms, .. } => {
                self.completed < u32::MAX && *duration_ms <= (u64::MAX - self.total_time_ms) as u128
            },
            TaskResult::Error { .. } => self.failed < u32::MAX,
        }
    }

    /// Records one result.
    pub fn record(&mut self, result: &TaskResult)
        requires
            old(self).has_room_for(result@),
        ensures
            *final(self) == old(self).recorded(result@),
    {
        match result {
            TaskResult::Success { duration_ms, .. } => {
                self.completed = self.completed + 1;
                self.total_time_ms = self.total_time_ms + (*duration_ms as u64);
            },
            TaskResult::Error { .. } => {
                self.failed = self.failed + 1;
            },
        }
    }

    /// A copy of all three fields as they are now.
    pub fn snapshot(&self) -> (copy: Stats)
        ensures
            copy == *self,
    {
        Stats {
            completed: self.completed,
            failed: self.failed,
            total_time_ms: self.total_time_ms,
        }
    }

    /// Statistics that are the tallies of some results are, after one more is
    /// recorded, the tallies of all of them: the counts lose no update and the
    /// total is the exact sum.
    pub proof fn law_record_keeps_tallies(
        self,
        results: Seq<TaskResultView>,
        next: TaskResultView,
    )
        requires
            self.tallies(results),
            self.has_room_for(next),
        ensures
            self.recorded(next).tallies(results.push(next)),
    {
        lemma_tally_push(results, next);
    }
}

/// Statistics of a worker pool, with the total time in 128 bits and the number
/// of workers that are processing a task.
#[derive(Debug, Clone, Copy, PartialEq, Eq)]
pub struct SystemStats {
    pub tasks_completed: u32,
    pub tasks_failed: u32,
    pub total_duration_ms: u128,
    pub active_workers: u32,
}

impl SystemStats {
    /// Whether the three tallies are those of `results`.
    pub open spec fn tallies(self, results: Seq<TaskResultView>) -> bool {
        &&& self.tasks_completed == successes(results)
        &&& self.tasks_failed == failures(results)
        &&& self.total_duration_ms == total_duration(results)
    }

    /// Whether `result` can be recorded without a field running over.
    pub open spec fn has_room_for(self, result: TaskResultView) -> bool {
        match result {
            TaskResultView::Success { duration_ms, .. } => {
                &&& self.tasks_completed < u32::MAX
                &&& self.total_duration_ms + duration_ms <= u128::MAX
            },
            TaskResultView::Error { .. } => self.tasks_failed < u32::MAX,
        }
    }

    /// The statistics after `result` is recorded: a success counts as completed
    /// and adds its duration, a failure counts as failed and adds nothing. The
    /// number of active workers is not touched.
    pub open spec fn recorded(self, result: TaskResultView) -> SystemStats {
        match result {
            TaskResultView::Success { duration_ms, .. } => SystemStats {
                tasks_completed: (self.tasks_completed + 1) as u32,
                tasks_failed: self.tasks_failed,
                total_duration_ms: (self.total_duration_ms + duration_ms) as u128,
                active_workers: self.active_workers,
            },
            TaskResultView::Error { .. } => SystemStats {
                tasks_completed: self.tasks_completed,
                tasks_failed: (self.tasks_failed + 1) as u32,
                total_duration_ms: self.total_duration_ms,
                active_workers: self.active_workers,
            },
        }
    }

    /// Statistics of a pool in which nothing has happened yet.
    pub fn new() -> (stats: SystemStats)
        ensures
            stats == (SystemStats {
                tasks_completed: 0,
                tasks_failed: 0,
                total_duration_ms: 0,
                active_workers: 0,
            }),
            stats.tallies(Seq::empty()),
    {
        SystemStats { tasks_completed: 0, tasks_failed: 0, total_duration_ms: 0, active_workers: 0 }
    }

    /// Tests whether [`SystemStats::record`] may be called with `result`.
    pub fn accepts(&self, result: &TaskResult) -> (yes: bool)
        ensures
            yes == self.has_room_for(result@),
    {
        match result {
            TaskResult::Success { duration_ms, .. } => {
                self.tasks_completed < u32::MAX && *duration_ms <= u128::MAX
                    - self.total_duration_ms
            },
            TaskResult::Error { .. } => self.tasks_failed < u32::MAX,
        }
    }

    /// Records one result.
    pub fn record(&mut self, result: &TaskResult)
        requires
            old(self).has_room_for(result@),
        ensures
            *final(self) == old(self).recorded(result@),
    {
        match result {
            TaskResult::Success { duration_ms, .. } => {
                self.tasks_completed = self.tasks_completed + 1;
                self.total_duration_ms = self.total_duration_ms + *duration_ms;
            },
            TaskResult::Error { .. } => {
                self.tasks_failed = self.tasks_failed + 1;
            },
        }
    }

    /// A copy of all fields as they are now.
    pub fn snapshot(&self) -> (copy: SystemStats)
        ensures
            copy == *self,
    {
        SystemStats {
            tasks_completed: self.tasks_completed,
            tasks_failed: self.tasks_failed,
            total_duration_ms: self.total_duration_ms,
            active_workers: self.active_workers,
        }
    }

    /// Statistics that are the tallies of some results are, after one more is
    /// recorded, the tallies of all of them: the counts lose no update and the
    /// total is the exact sum.
    pub proof fn law_record_keeps_tallies(
        self,
        results: Seq<TaskResultView>,
        next: TaskResultView,
    )
        requires
            self.tallies(results),
            self.has_room_for(next),
        ensures
            self.recorded(next).tallies(results.push(next)),
            self.recorded(next).active_workers == self.active_workers,
    {
        lemma_tally_push(results, next);
    }
}

} // verus!
