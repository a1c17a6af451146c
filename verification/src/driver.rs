//! A whole run on one thread.
//!
//! [`run`] takes the pool through a complete run without any thread or clock:
//! the tasks are dealt to the workers in turn, each task is reported on before
//! the next is claimed, and each takes exactly the time it stands for. It is
//! the reference against which a run on real threads can be held: the counts
//! of any run on the same tasks are those of this one.

use crate::permutation::count_of;
use crate::pool::{failing, Collected, Pool, PoolView};
use crate::stats::SystemStats;
use crate::task::{result_of, Job, TaskResult, TaskResultView};
use crate::worker::{Action, WorkerState};
use vstd::prelude::*;

verus! {

/// What a run leaves behind.
pub struct RunReport {
    /// The results in the order in which the collector took them out.
    pub results: Vec<TaskResult>,
    /// The final statistics.
    pub stats: SystemStats,
}

/// The function that gives the result of a job that takes exactly the time it
/// stands for.
pub open spec fn nominal<T: Job>() -> spec_fn(T) -> TaskResultView {
    |job: T| result_of(job, job.spec_work_ms())
}

/// The state of a pool of `workers` workers of which the first `gone` have left
/// and the others are idle.
pub open spec fn retiring<T>(workers: usize, gone: usize) -> Seq<WorkerState<T>> {
    Seq::new(
        workers as nat,
        |w: int|
            if w < gone {
                WorkerState::<T>::Stopped
            } else {
                WorkerState::<T>::Idle
            },
    )
}

/// Runs `tasks` through a pool of `workers` workers, on this thread.
///
/// The results come out in the order of the tasks, whatever the number of
/// workers, and the statistics are their tallies.
pub fn run<T: Job>(tasks: Vec<T>, workers: usize) -> (report: RunReport)
    requires
        0 < workers < usize::MAX,
        tasks.len() <= u32::MAX,
    ensures
        report.results.len() == tasks.len(),
        forall|i: int|
            0 <= i < tasks.len() ==> (#[trigger] report.results[i])@ == result_of(
                tasks[i],
                tasks[i].spec_work_ms(),
            ),
        report.stats.tallies(tasks@.map_values(nominal())),
        report.stats.active_workers == 0,
        report.stats.tasks_completed + report.stats.tasks_failed == tasks.len(),
        report.stats.tasks_failed == count_of(tasks@, failing()),
{
    let ghost all = tasks@;
    let count = tasks.len();
    let mut pool: Pool<T> = Pool::new(workers);
    pool.submit_all(tasks);
    pool.close();
    assert(pool@.workers =~= retiring::<T>(workers, 0));
    let mut results: Vec<TaskResult> = Vec::new();
    let mut turn: usize = 0;
    let mut done: usize = 0;
    while done < count
        invariant
            pool.wf(),
            turn < workers,
            done <= count == all.len(),
            pool@.closed,
            pool@.pending == all.skip(done as int),
            pool@.workers == retiring::<T>(workers, 0),
            pool@.outbox.len() == 0,
            pool@.submitted == all,
            pool@.processed == all.take(done as int),
            pool@.results == all.take(done as int).map_values(nominal()),
            pool@.delivered == pool@.results,
            results.len() == done,
            forall|i: int| 0 <= i < done ==> (#[trigger] results[i])@ == nominal()(all[i]),
        decreases count - done,
    {
        match pool.claim(turn) {
            Action::Work { work_ms, .. } => {
                pool.finish(turn, work_ms);
                match pool.collect() {
                    Collected::Result(result) => {
                        results.push(result);
                    },
                    // a result waits: the worker has just sent it
                    _ => {
                        assert(false);
                    },
                }
            },
            // a task waits: fewer than `count` have been claimed
            _ => {
                assert(false);
            },
        }
        turn = if turn + 1 < workers {
            turn + 1
        } else {
            0
        };
        done = done + 1;
    }
    let ghost drained = pool@;
    let mut gone: usize = 0;
    while gone < workers
        invariant
            pool.wf(),
            gone <= workers,
            drained.closed,
            drained.pending.len() == 0,
            pool@ == (PoolView { workers: retiring::<T>(workers, gone), ..drained }),
        decreases workers - gone,
    {
        pool.claim(gone);
        gone = gone + 1;
    }
    proof {
        pool.law_conservation();
        pool.law_every_task_counted();
        pool.law_counts_follow_tasks();
        pool.law_all_delivered();
    }
    RunReport { results, stats: pool.snapshot() }
}

} // verus!
