//! The worker pool: a queue of tasks, a fixed set of workers, a channel of
//! results and the statistics, as one state machine.
//!
//! Each method is one step that some thread takes while it holds the pool
//! exclusively. A worker claims a task, spends the time outside the pool, and
//! comes back to report; the collector takes results out one by one. Whatever
//! the order of these steps, the pool keeps account of every task: see
//! [`Pool::wf`] and the laws at the end of this file.

use crate::channel::{Received, ResultChannel};
use crate::permutation::{
    count_of, lemma_count_of_permutation, lemma_map_permutation, lemma_permutation_no_duplicates,
    same_elements,
};
use crate::queue::{Claim, TaskQueue};
use crate::stats::{
    failures, lemma_counts_partition, lemma_total_duration_bound, total_duration, SystemStats,
};
use crate::task::{fails, process_task, result_of, Job, TaskResult, TaskResultView};
use crate::worker::{
    all_stopped, in_flight, lemma_in_flight_none, lemma_in_flight_push, lemma_in_flight_update,
    lemma_live_update, lemma_live_zero, live, Action, WorkerState,
};
use vstd::multiset::Multiset;
use vstd::prelude::*;

verus! {

/// A pool of workers with everything that passes through it.
pub struct Pool<T: Job> {
    queue: TaskQueue<T>,
    workers: Vec<WorkerState<T>>,
    channel: ResultChannel,
    stats: SystemStats,
    accepted: u32,
    claimed: Ghost<Seq<T>>,
    processed: Ghost<Seq<T>>,
    results: Ghost<Seq<TaskResultView>>,
    collected: Ghost<nat>,
}

/// The mathematical content of a [`Pool`]: what it holds now, and what has
/// passed through it since it was made.
#[verifier::ext_equal]
pub struct PoolView<T> {
    /// The tasks that wait in the queue, oldest first.
    pub pending: Seq<T>,
    /// Whether the queue has been closed.
    pub closed: bool,
    /// The state of each worker.
    pub workers: Seq<WorkerState<T>>,
    /// The results that wait for the collector, oldest first.
    pub outbox: Seq<TaskResult>,
    /// The statistics of what the collector has taken out.
    pub stats: SystemStats,
    /// Every task ever submitted, in the order of submission.
    pub submitted: Seq<T>,
    /// Every task that a worker has reported on, in the order of the reports.
    pub processed: Seq<T>,
    /// The result of each report, in the same order.
    pub results: Seq<TaskResultView>,
    /// The results that the collector has taken out, in that order.
    pub delivered: Seq<TaskResultView>,
}

impl<T> PoolView<T> {
    /// Whether the run is over: the queue is closed and empty, every worker has
    /// left, and the collector has taken out the last result.
    pub open spec fn finished(self) -> bool {
        &&& self.closed
        &&& self.pending.len() == 0
        &&& all_stopped(self.workers)
        &&& self.outbox.len() == 0
    }

    /// How many steps a closed pool is away from the end of its run: three for
    /// each task that waits (claim, report, take out), two for each task in
    /// flight, one for each result that waits, and one for each worker that has
    /// yet to leave.
    pub open spec fn steps_left(self) -> nat {
        3 * self.pending.len() + 2 * in_flight(self.workers).len() + self.outbox.len() + live(
            self.workers,
        )
    }
}

/// The answer to the collector's attempt to take out a result.
pub enum Collected {
    /// The oldest waiting result, which is now part of the statistics.
    Result(TaskResult),
    /// Nothing waits, but a worker or the producer is still there.
    Wait,
    /// Nothing waits and nothing will come: the statistics are final.
    Done,
}

/// Whether `result` is what a worker reports for `job`, after some time that
/// fits in 64 bits.
pub open spec fn answers<T: Job>(result: TaskResultView, job: T) -> bool {
    &&& result.duration() <= u64::MAX
    &&& result == result_of(job, result.duration() as u64)
}

/// Reports that answer their jobs one by one hold as many failures as there
/// are jobs whose routine fails.
pub proof fn lemma_failures_follow_jobs<T: Job>(results: Seq<TaskResultView>, jobs: Seq<T>)
    requires
        results.len() == jobs.len(),
        forall|i: int| 0 <= i < jobs.len() ==> answers(#[trigger] results[i], jobs[i]),
    ensures
        failures(results) == count_of(jobs, failing()),
    decreases jobs.len(),
{
    if jobs.len() > 0 {
        assert(forall|i: int|
            0 <= i < jobs.len() - 1 ==> answers(
                #[trigger] results.drop_last()[i],
                jobs.drop_last()[i],
            ));
        lemma_failures_follow_jobs(results.drop_last(), jobs.drop_last());
    }
}

/// The function that tells whether a job's routine fails.
pub open spec fn failing<T: Job>() -> spec_fn(T) -> bool {
    |job: T| fails(job)
}

/// The function that gives a job's id.
pub open spec fn job_id<T: Job>() -> spec_fn(T) -> u32 {
    |job: T| job.spec_id()
}

/// The function that gives the id that a result echoes.
pub open spec fn result_id() -> spec_fn(TaskResultView) -> u32 {
    |result: TaskResultView| result.id()
}

impl<T: Job> View for Pool<T> {
    type V = PoolView<T>;

    closed spec fn view(&self) -> PoolView<T> {
        PoolView {
            pending: self.queue@.pending,
            closed: self.queue@.closed,
            workers: self.workers@,
            outbox: self.channel@.buffered,
            stats: self.stats,
            submitted: self.claimed@ + self.queue@.pending,
            processed: self.processed@,
            results: self.results@,
            delivered: self.results@.take(self.collected@ as int),
        }
    }
}

impl<T: Job> Pool<T> {
    /// The invariant of the pool. It says that
    /// - every task that has left the queue is in flight or has been reported on,
    ///   and each exactly as often as it was submitted;
    /// - each report is the result of the task it belongs to;
    /// - the results that wait are the reports that have not been taken out, in order;
    /// - the statistics are the tallies of the results taken out;
    /// - a worker that has left has seen the queue closed and empty.
    pub closed spec fn wf(&self) -> bool {
        let buffered = self.channel@.buffered;
        let collected = self.collected@;
        &&& self.processed@.to_multiset().add(in_flight(self.workers@))
            == self.claimed@.to_multiset()
        &&& self.results@.len() == self.processed@.len()
        &&& forall|i: int|
            0 <= i < self.processed@.len() ==> answers(
                #[trigger] self.results@[i],
                self.processed@[i],
            )
        &&& collected + buffered.len() == self.results@.len()
        &&& forall|i: int|
            0 <= i < buffered.len() ==> (#[trigger] buffered[i])@ == self.results@[collected + i]
        &&& self.stats.tallies(self.results@.take(collected as int))
        &&& self.stats.active_workers == in_flight(self.workers@).len()
        &&& self.channel@.producers == live(self.workers@) + if self.queue@.closed {
            0nat
        } else {
            1nat
        }
        &&& self.accepted == self.claimed@.len() + self.queue@.pending.len()
        &&& self.workers@.len() < usize::MAX
        &&& forall|w: int|
            0 <= w < self.workers@.len() && #[trigger] self.workers@[w] is Stopped ==> {
                &&& self.queue@.closed
                &&& self.queue@.pending.len() == 0
            }
    }

    /// A pool of `workers` idle workers, with an open and empty queue.
    pub fn new(workers: usize) -> (pool: Self)
        requires
            workers < usize::MAX,
        ensures
            pool.wf(),
            pool@ == (PoolView {
                pending: Seq::<T>::empty(),
                closed: false,
                workers: Seq::new(workers as nat, |w: int| WorkerState::<T>::Idle),
                outbox: Seq::<TaskResult>::empty(),
                stats: SystemStats {
                    tasks_completed: 0,
                    tasks_failed: 0,
                    total_duration_ms: 0,
                    active_workers: 0,
                },
                submitted: Seq::<T>::empty(),
                processed: Seq::<T>::empty(),
                results: Seq::<TaskResultView>::empty(),
                delivered: Seq::<TaskResultView>::empty(),
            }),
    {
        let mut slots: Vec<WorkerState<T>> = Vec::new();
        let mut channel = ResultChannel::new();
        let mut made: usize = 0;
        while made < workers
            invariant
                made <= workers < usize::MAX,
                slots@ =~= Seq::new(made as nat, |w: int| WorkerState::<T>::Idle),
                channel@.buffered == Seq::<TaskResult>::empty(),
                channel@.producers == made + 1,
                in_flight(slots@) == Multiset::<T>::empty(),
                live(slots@) == made,
            decreases workers - made,
        {
            proof {
                lemma_in_flight_push(slots@, WorkerState::<T>::Idle);
            }
            slots.push(WorkerState::Idle);
            channel.add_producer();
            made = made + 1;
        }
        let pool = Pool {
            queue: TaskQueue::new(),
            workers: slots,
            channel,
            stats: SystemStats::new(),
            accepted: 0,
            claimed: Ghost(Seq::empty()),
            processed: Ghost(Seq::empty()),
            results: Ghost(Seq::empty()),
            collected: Ghost(0),
        };
        proof {
            assert(pool.processed@.to_multiset().add(in_flight(pool.workers@))
                =~= pool.claimed@.to_multiset());
        }
        pool
    }

    /// Appends `task` to the queue. The queue has no bound other than that of
    /// the counters, so this never has to wait.
    pub fn submit(&mut self, task: T)
        requires
            old(self).wf(),
            !old(self)@.closed,
            old(self)@.submitted.len() < u32::MAX,
        ensures
            final(self).wf(),
            final(self)@ == (PoolView {
                pending: old(self)@.pending.push(task),
                submitted: old(self)@.submitted.push(task),
                ..old(self)@
            }),
    {
        self.queue.enqueue(task);
        self.accepted = self.accepted + 1;
    }

    /// Appends all of `tasks` to the queue, in their order.
    pub fn submit_all(&mut self, tasks: Vec<T>)
        requires
            old(self).wf(),
            !old(self)@.closed,
            old(self)@.submitted.len() + tasks.len() <= u32::MAX,
        ensures
            final(self).wf(),
            final(self)@ == (PoolView {
                pending: old(self)@.pending + tasks@,
                submitted: old(self)@.submitted + tasks@,
                ..old(self)@
            }),
    {
        let ghost all = tasks@;
        for task in iter: tasks.into_iter()
            invariant
                iter.seq() == all,
                self.wf(),
                !old(self)@.closed,
                old(self)@.submitted.len() + all.len() <= u32::MAX,
                self@ == (PoolView {
                    pending: old(self)@.pending + all.take(iter.index() as int),
                    submitted: old(self)@.submitted + all.take(iter.index() as int),
                    ..old(self)@
                }),
        {
            self.submit(task);
        }
    }

    /// How many tasks have been submitted so far.
    pub fn submitted_count(&self) -> (n: u32)
        requires
            self.wf(),
        ensures
            n == self@.submitted.len(),
    {
        self.accepted
    }

    /// Tests whether [`Pool::submit`] may be called.
    pub fn can_submit(&self) -> (yes: bool)
        requires
            self.wf(),
        ensures
            yes == (!self@.closed && self@.submitted.len() < u32::MAX),
    {
        !self.queue.is_closed() && self.accepted < u32::MAX
    }

    /// Closes the queue and gives up the producer's own handle on the results.
    /// What waits can still be claimed. Closing twice is closing once.
    pub fn close(&mut self)
        requires
            old(self).wf(),
        ensures
            final(self).wf(),
            final(self)@ == (PoolView { closed: true, ..old(self)@ }),
    {
        if !self.queue.is_closed() {
            self.queue.close();
            self.channel.release();
        }
    }

    /// Worker `w`, which is idle, asks for work. If a task waits, the worker
    /// becomes busy with the oldest one. If none waits and the queue is closed,
    /// the worker leaves. Otherwise nothing changes.
    pub fn claim(&mut self, w: usize) -> (action: Action)
        requires
            old(self).wf(),
            w < old(self)@.workers.len(),
            old(self)@.workers[w as int] is Idle,
        ensures
            final(self).wf(),
            old(self)@.pending.len() > 0 ==> {
                let task = old(self)@.pending[0];
                &&& action == (Action::Work { id: task.spec_id(), work_ms: task.spec_work_ms() })
                &&& final(self)@ == (PoolView {
                    pending: old(self)@.pending.drop_first(),
                    workers: old(self)@.workers.update(w as int, WorkerState::Busy(task)),
                    stats: SystemStats {
                        active_workers: (old(self)@.stats.active_workers + 1) as u32,
                        ..old(self)@.stats
                    },
                    ..old(self)@
                })
            },
            old(self)@.pending.len() == 0 && old(self)@.closed ==> {
                &&& action == Action::Exit
                &&& final(self)@ == (PoolView {
                    workers: old(self)@.workers.update(w as int, WorkerState::Stopped),
                    ..old(self)@
                })
            },
            old(self)@.pending.len() == 0 && !old(self)@.closed ==> {
                &&& action == Action::Wait
                &&& final(self)@ == old(self)@
            },
            action != Action::Wait ==> final(self)@.steps_left() + 1 == old(self)@.steps_left(),
    {
        let ghost before = self.workers@;
        proof {
            lemma_live_update(before, w as int, WorkerState::<T>::Stopped);
            vstd::seq_lib::to_multiset_len(self.claimed@);
        }
        match self.queue.claim() {
            Claim::Task(task) => {
                let id = task.id();
                let work_ms = task.work_ms();
                proof {
                    lemma_in_flight_update(before, w as int, WorkerState::Busy(task));
                    lemma_live_update(before, w as int, WorkerState::Busy(task));
                    vstd::seq_lib::to_multiset_build(self.claimed@, task);
                    assert(in_flight(before.update(w as int, WorkerState::Busy(task)))
                        =~= in_flight(before).insert(task));
                    assert(self.processed@.to_multiset().add(in_flight(before).insert(task))
                        =~= self.processed@.to_multiset().add(in_flight(before)).insert(task));
                }
                self.claimed = Ghost(self.claimed@.push(task));
                self.workers.set(w, WorkerState::Busy(task));
                self.stats.active_workers = self.stats.active_workers + 1;
                Action::Work { id, work_ms }
            },
            Claim::Pending => Action::Wait,
            Claim::Closed => {
                proof {
                    lemma_in_flight_update(before, w as int, WorkerState::<T>::Stopped);
                    let after = in_flight(before.update(w as int, WorkerState::<T>::Stopped));
                    assert(after.add(Multiset::empty()) =~= after);
                    assert(in_flight(before).add(Multiset::empty()) =~= in_flight(before));
                }
                self.workers.set(w, WorkerState::Stopped);
                self.channel.release();
                Action::Exit
            },
        }
    }

    /// Worker `w`, which is busy, reports on its task after `elapsed_ms`
    /// milliseconds: the task's routine decides the outcome, the result goes to
    /// the collector's end of the channel, and the worker is idle again.
    pub fn finish(&mut self, w: usize, elapsed_ms: u64)
        requires
            old(self).wf(),
            w < old(self)@.workers.len(),
            old(self)@.workers[w as int] is Busy,
        ensures
            final(self).wf(),
            ({
                let task = old(self)@.workers[w as int]->0;
                let result = final(self)@.outbox.last();
                &&& result@ == result_of(task, elapsed_ms)
                &&& final(self)@ == (PoolView {
                    workers: old(self)@.workers.update(w as int, WorkerState::Idle),
                    outbox: old(self)@.outbox.push(result),
                    stats: SystemStats {
                        active_workers: (old(self)@.stats.active_workers - 1) as u32,
                        ..old(self)@.stats
                    },
                    processed: old(self)@.processed.push(task),
                    results: old(self)@.results.push(result@),
                    ..old(self)@
                })
            }),
            final(self)@.steps_left() + 1 == old(self)@.steps_left(),
    {
        let ghost before = self.workers@;
        let ghost task = before[w as int]->0;
        let result = match &self.workers[w] {
            WorkerState::Busy(task) => process_task(task, elapsed_ms),
            _ => vstd::pervasive::unreached(),
        };
        proof {
            lemma_in_flight_update(before, w as int, WorkerState::<T>::Idle);
            lemma_live_update(before, w as int, WorkerState::<T>::Idle);
            lemma_live_update(before, w as int, WorkerState::<T>::Stopped);
            vstd::seq_lib::to_multiset_build(self.processed@, task);
            assert(in_flight(before) =~= in_flight(
                before.update(w as int, WorkerState::<T>::Idle),
            ).insert(task));
            assert(self.processed@.push(task).to_multiset().add(
                in_flight(before.update(w as int, WorkerState::<T>::Idle)),
            ) =~= self.processed@.to_multiset().add(in_flight(before)));
            assert(self@.delivered =~= self.results@.push(result@).take(self.collected@ as int));
        }
        self.workers.set(w, WorkerState::Idle);
        self.channel.send(result);
        self.stats.active_workers = self.stats.active_workers - 1;
        self.processed = Ghost(self.processed@.push(task));
        self.results = Ghost(self.results@.push(result@));
    }

    /// The collector asks for a result. If one waits, the oldest leaves the
    /// channel and is recorded in the statistics. If none waits, the answer says
    /// whether the run is over: it is once the queue is closed and every worker
    /// has left.
    pub fn collect(&mut self) -> (collected: Collected)
        requires
            old(self).wf(),
        ensures
            final(self).wf(),
            old(self)@.outbox.len() > 0 ==> {
                let result = old(self)@.outbox[0];
                &&& collected == Collected::Result(result)
                &&& final(self)@ == (PoolView {
                    outbox: old(self)@.outbox.drop_first(),
                    stats: old(self)@.stats.recorded(result@),
                    delivered: old(self)@.delivered.push(result@),
                    ..old(self)@
                })
            },
            old(self)@.outbox.len() == 0 ==> {
                &&& final(self)@ == old(self)@
                &&& collected == if old(self)@.closed && all_stopped(old(self)@.workers) {
                    Collected::Done
                } else {
                    Collected::Wait
                }
            },
            collected is Result ==> final(self)@.steps_left() + 1 == old(self)@.steps_left(),
    {
        proof {
            lemma_live_zero(self.workers@);
            self.lemma_room();
        }
        match self.channel.receive() {
            Received::Result(result) => {
                let ghost taken = self.results@.take(self.collected@ as int);
                proof {
                    self.stats.law_record_keeps_tallies(taken, result@);
                    assert(self.results@.take(self.collected@ as int + 1) =~= taken.push(result@));
                    assert(forall|i: int|
                        0 <= i < self.channel@.buffered.len() ==> (
                        #[trigger] self.channel@.buffered[i])@ == self.results@[self.collected@
                            + 1 + i]);
                }
                self.stats.record(&result);
                self.collected = Ghost(self.collected@ + 1);
                Collected::Result(result)
            },
            Received::Pending => Collected::Wait,
            Received::Closed => Collected::Done,
        }
    }

    /// A copy of the statistics as they are now. They are final once
    /// [`Pool::collect`] has answered [`Collected::Done`].
    pub fn snapshot(&self) -> (stats: SystemStats)
        ensures
            stats == self@.stats,
    {
        self.stats.snapshot()
    }

    /// Whether the run is over.
    pub fn is_finished(&self) -> (yes: bool)
        requires
            self.wf(),
        ensures
            yes == self@.finished(),
    {
        proof {
            lemma_live_zero(self.workers@);
        }
        self.queue.is_closed() && self.queue.len() == 0 && self.channel.len() == 0
            && self.channel.producers() == 0
    }

    /// Whether the queue has been closed.
    pub fn is_closed(&self) -> (yes: bool)
        ensures
            yes == self@.closed,
    {
        self.queue.is_closed()
    }

    /// The number of workers, which never changes.
    pub fn worker_count(&self) -> (n: usize)
        ensures
            n == self@.workers.len(),
    {
        self.workers.len()
    }

    /// Whether `w` is a worker of this pool that is idle.
    pub fn is_idle(&self, w: usize) -> (yes: bool)
        ensures
            yes == (w < self@.workers.len() && self@.workers[w as int] is Idle),
    {
        if w < self.workers.len() {
            match &self.workers[w] {
                WorkerState::Idle => true,
                _ => false,
            }
        } else {
            false
        }
    }

    /// Whether `w` is a worker of this pool that is busy.
    pub fn is_busy(&self, w: usize) -> (yes: bool)
        ensures
            yes == (w < self@.workers.len() && self@.workers[w as int] is Busy),
    {
        if w < self.workers.len() {
            match &self.workers[w] {
                WorkerState::Busy(_) => true,
                _ => false,
            }
        } else {
            false
        }
    }

    /// Nothing is lost and nothing is made up, at any moment: the tasks reported
    /// on, those in flight and those that wait are together the tasks submitted,
    /// each as often as it was submitted. Each report is the result of its task,
    /// the collector has taken out the first reports in their order, and the
    /// statistics are the tallies of what it has taken out.
    pub proof fn law_conservation(self)
        requires
            self.wf(),
        ensures
            self@.processed.to_multiset().add(in_flight(self@.workers)).add(
                self@.pending.to_multiset(),
            ) == self@.submitted.to_multiset(),
            self@.results.len() == self@.processed.len(),
            forall|i: int|
                0 <= i < self@.processed.len() ==> answers(
                    #[trigger] self@.results[i],
                    self@.processed[i],
                ),
            self@.delivered.len() + self@.outbox.len() == self@.results.len(),
            self@.delivered == self@.results.take(self@.delivered.len() as int),
            forall|i: int|
                0 <= i < self@.outbox.len() ==> (#[trigger] self@.outbox[i])@
                    == self@.results[self@.delivered.len() + i],
            self@.stats.tallies(self@.delivered),
            self@.stats.active_workers == in_flight(self@.workers).len(),
            self@.submitted.len() <= u32::MAX,
    {
        vstd::seq_lib::lemma_multiset_commutative(self.claimed@, self.queue@.pending);
    }

    /// Once the run is over, every submitted task has been reported on and
    /// every report has been taken out.
    pub proof fn law_all_delivered(self)
        requires
            self.wf(),
            self@.finished(),
        ensures
            same_elements(self@.processed, self@.submitted),
            self@.delivered == self@.results,
            self@.delivered.len() == self@.submitted.len(),
            self@.stats.active_workers == 0,
    {
        assert(forall|w: int|
            0 <= w < self.workers@.len() ==> !(#[trigger] self.workers@[w] is Busy));
        lemma_in_flight_none(self.workers@);
        assert(self.processed@.to_multiset().add(Multiset::empty())
            =~= self.processed@.to_multiset());
        vstd::seq_lib::to_multiset_len(self.processed@);
        vstd::seq_lib::to_multiset_len(self.claimed@);
    }

    /// After a run of N submitted tasks, the completed and the failed ones are
    /// N together.
    pub proof fn law_every_task_counted(self)
        requires
            self.wf(),
            self@.finished(),
        ensures
            self@.stats.tasks_completed + self@.stats.tasks_failed == self@.submitted.len(),
    {
        self.law_all_delivered();
        lemma_counts_partition(self@.delivered);
    }

    /// After a run, the ids that the results echo are the ids of the submitted
    /// tasks, each as often as it was submitted: no task was lost and none was
    /// processed twice. Where the submitted ids are all different, so are those
    /// of the results, and each submitted id is that of exactly one result.
    pub proof fn law_one_result_per_task(self)
        requires
            self.wf(),
            self@.finished(),
        ensures
            same_elements(
                self@.delivered.map_values(result_id()),
                self@.submitted.map_values(job_id()),
            ),
            self@.submitted.map_values(job_id()).no_duplicates()
                ==> self@.delivered.map_values(result_id()).no_duplicates(),
            self@.submitted.map_values(job_id()).no_duplicates() ==> forall|i: int|
                0 <= i < self@.submitted.len() ==> self@.delivered.map_values(
                    result_id(),
                ).to_multiset().count(#[trigger] self@.submitted[i].spec_id()) == 1,
    {
        self.law_all_delivered();
        let echoed = self@.delivered.map_values(result_id());
        let given = self@.submitted.map_values(job_id());
        assert(echoed =~= self@.processed.map_values(job_id()));
        lemma_map_permutation(self@.processed, self@.submitted, job_id());
        if given.no_duplicates() {
            lemma_permutation_no_duplicates(given, echoed);
            given.lemma_multiset_has_no_duplicates();
            assert forall|i: int| 0 <= i < self@.submitted.len() implies echoed.to_multiset().count(
                #[trigger] self@.submitted[i].spec_id(),
            ) == 1 by {
                vstd::seq_lib::to_multiset_contains(given, given[i]);
            }
        }
    }

    /// The total duration in the statistics is the sum of the durations of the
    /// successes among the results taken out: at any moment, and so after a run
    /// for all results.
    pub proof fn law_total_duration(self)
        requires
            self.wf(),
        ensures
            self@.stats.total_duration_ms == total_duration(self@.delivered),
            self@.finished() ==> self@.stats.total_duration_ms == total_duration(self@.results),
    {
        if self@.finished() {
            self.law_all_delivered();
        }
    }

    /// After a run, the two counts are decided by the submitted tasks alone: as
    /// many failed as have a routine that fails. The number of workers and the
    /// order of their steps do not enter.
    pub proof fn law_counts_follow_tasks(self)
        requires
            self.wf(),
            self@.finished(),
        ensures
            self@.stats.tasks_failed == count_of(self@.submitted, failing()),
            self@.stats.tasks_completed == self@.submitted.len() - count_of(
                self@.submitted,
                failing(),
            ),
    {
        self.law_all_delivered();
        self.law_every_task_counted();
        lemma_failures_follow_jobs(self@.results, self@.processed);
        lemma_count_of_permutation(self@.processed, self@.submitted, failing());
    }

    /// Two runs on the same tasks, submitted in whatever order to pools of
    /// whatever size, end with the same counts.
    pub proof fn law_pool_size_is_irrelevant(self, other: Self)
        requires
            self.wf(),
            other.wf(),
            self@.finished(),
            other@.finished(),
            same_elements(self@.submitted, other@.submitted),
        ensures
            self@.stats.tasks_completed == other@.stats.tasks_completed,
            self@.stats.tasks_failed == other@.stats.tasks_failed,
    {
        self.law_counts_follow_tasks();
        other.law_counts_follow_tasks();
        lemma_count_of_permutation(self@.submitted, other@.submitted, failing());
        vstd::seq_lib::to_multiset_len(self@.submitted);
        vstd::seq_lib::to_multiset_len(other@.submitted);
    }

    /// A run without tasks ends with empty statistics.
    pub proof fn law_empty_run(self)
        requires
            self.wf(),
            self@.finished(),
            self@.submitted.len() == 0,
        ensures
            self@.stats == (SystemStats {
                tasks_completed: 0,
                tasks_failed: 0,
                total_duration_ms: 0,
                active_workers: 0,
            }),
    {
        self.law_all_delivered();
    }

    /// A closed pool with at least one worker never gets stuck: until its run is
    /// over, a result waits for the collector or some worker is idle or busy, so
    /// that [`Pool::collect`], [`Pool::claim`] or [`Pool::finish`] can be called
    /// and lowers [`PoolView::steps_left`]. The run is over exactly when no step
    /// is left.
    pub proof fn law_progress(self)
        requires
            self.wf(),
            self@.closed,
            self@.workers.len() > 0,
        ensures
            self@.finished() <==> self@.steps_left() == 0,
            !self@.finished() ==> {
                ||| self@.outbox.len() > 0
                ||| exists|w: int|
                    0 <= w < self@.workers.len() && !(#[trigger] self@.workers[w] is Stopped)
            },
    {
        lemma_live_zero(self.workers@);
        if all_stopped(self.workers@) {
            assert(forall|w: int|
                0 <= w < self.workers@.len() ==> !(#[trigger] self.workers@[w] is Busy));
            lemma_in_flight_none(self.workers@);
        }
    }

    /// The next result to take out can be recorded: no counter can run over.
    proof fn lemma_room(self)
        requires
            self.wf(),
        ensures
            self.channel@.buffered.len() > 0 ==> self.stats.has_room_for(
                self.channel@.buffered[0]@,
            ),
    {
        if self.channel@.buffered.len() > 0 {
            let taken = self.results@.take(self.collected@ as int);
            vstd::seq_lib::to_multiset_len(self.processed@);
            vstd::seq_lib::to_multiset_len(self.claimed@);
            lemma_counts_partition(taken);
            assert(forall|i: int|
                0 <= i < taken.len() ==> (#[trigger] taken[i]).duration() <= u64::MAX);
            lemma_total_duration_bound(taken, u64::MAX as nat);
            assert(taken.len() * (u64::MAX as nat) + u64::MAX <= u128::MAX) by (nonlinear_arith)
                requires
                    taken.len() < u32::MAX,
            ;
        }
    }
}

} // verus!
