//! The workers of a pool: what each one is doing, and what all of them hold.

use vstd::multiset::Multiset;
use vstd::prelude::*;

verus! {

/// What one worker is doing.
pub enum WorkerState<T> {
    /// It holds no task and may claim one.
    Idle,
    /// It has claimed the task it holds and has not reported on it yet.
    Busy(T),
    /// It has seen the queue closed and empty, and has left.
    Stopped,
}

/// What a worker told to claim has to do next.
#[derive(Debug, Clone, Copy, PartialEq, Eq)]
pub enum Action {
    /// It has been given the task with this id: spend the time, then report.
    Work { id: u32, work_ms: u64 },
    /// Nothing waits, but more may come: claim again later.
    Wait,
    /// Nothing waits and nothing will come: leave.
    Exit,
}

/// The task that a worker in this state holds: one if it is busy, none otherwise.
pub open spec fn held<T>(state: WorkerState<T>) -> Multiset<T> {
    match state {
        WorkerState::Busy(task) => Multiset::singleton(task),
        _ => Multiset::empty(),
    }
}

/// The tasks that are being processed: those that the busy workers hold.
pub open spec fn in_flight<T>(workers: Seq<WorkerState<T>>) -> Multiset<T>
    decreases workers.len(),
{
    if workers.len() == 0 {
        Multiset::empty()
    } else {
        in_flight(workers.drop_last()).add(held(workers.last()))
    }
}

/// What a worker in this state counts towards the workers that have not left.
pub open spec fn presence<T>(state: WorkerState<T>) -> nat {
    if state is Stopped {
        0
    } else {
        1
    }
}

/// How many workers have not left.
pub open spec fn live<T>(workers: Seq<WorkerState<T>>) -> nat
    decreases workers.len(),
{
    if workers.len() == 0 {
        0
    } else {
        live(workers.drop_last()) + presence(workers.last())
    }
}

/// Whether every worker has left.
pub open spec fn all_stopped<T>(workers: Seq<WorkerState<T>>) -> bool {
    forall|w: int| 0 <= w < workers.len() ==> #[trigger] workers[w] is Stopped
}

/// One more worker adds what it holds.
pub proof fn lemma_in_flight_push<T>(workers: Seq<WorkerState<T>>, state: WorkerState<T>)
    ensures
        in_flight(workers.push(state)) == in_flight(workers).add(held(state)),
        live(workers.push(state)) == live(workers) + presence(state),
{
    assert(workers.push(state).drop_last() =~= workers);
}

/// A worker that changes state takes out what it held and puts in what it holds now.
pub proof fn lemma_in_flight_update<T>(workers: Seq<WorkerState<T>>, w: int, state: WorkerState<T>)
    requires
        0 <= w < workers.len(),
    ensures
        in_flight(workers.update(w, state)).add(held(workers[w])) == in_flight(workers).add(
            held(state),
        ),
    decreases workers.len(),
{
    let after = workers.update(w, state);
    if w == workers.len() - 1 {
        assert(after.drop_last() =~= workers.drop_last());
    } else {
        assert(after.drop_last() =~= workers.drop_last().update(w, state));
        lemma_in_flight_update(workers.drop_last(), w, state);
        let a = in_flight(workers.drop_last().update(w, state));
        let b = in_flight(workers.drop_last());
        assert(a.add(held(workers.last())).add(held(workers[w])) =~= a.add(held(workers[w])).add(
            held(workers.last()),
        ));
    }
}

/// Where no worker is busy, nothing is in flight.
pub proof fn lemma_in_flight_none<T>(workers: Seq<WorkerState<T>>)
    requires
        forall|w: int| 0 <= w < workers.len() ==> !(#[trigger] workers[w] is Busy),
    ensures
        in_flight(workers) == Multiset::<T>::empty(),
    decreases workers.len(),
{
    if workers.len() > 0 {
        let rest = workers.drop_last();
        assert(forall|w: int| 0 <= w < rest.len() ==> !(#[trigger] rest[w] is Busy));
        lemma_in_flight_none(rest);
    }
}

/// A worker that changes state changes the number of live workers by its own presence.
pub proof fn lemma_live_update<T>(workers: Seq<WorkerState<T>>, w: int, state: WorkerState<T>)
    requires
        0 <= w < workers.len(),
    ensures
        live(workers.update(w, state)) + presence(workers[w]) == live(workers) + presence(state),
    decreases workers.len(),
{
    let after = workers.update(w, state);
    if w == workers.len() - 1 {
        assert(after.drop_last() =~= workers.drop_last());
    } else {
        assert(after.drop_last() =~= workers.drop_last().update(w, state));
        lemma_live_update(workers.drop_last(), w, state);
    }
}

/// No worker is live exactly when all have left.
pub proof fn lemma_live_zero<T>(workers: Seq<WorkerState<T>>)
    ensures
        live(workers) == 0 <==> all_stopped(workers),
    decreases workers.len(),
{
    if workers.len() > 0 {
        let rest = workers.drop_last();
        lemma_live_zero(rest);
        if all_stopped(workers) {
            assert(forall|w: int| 0 <= w < rest.len() ==> #[trigger] rest[w] is Stopped);
        }
        if live(workers) == 0 {
            assert forall|w: int| 0 <= w < workers.len() implies #[trigger] workers[w] is Stopped by {
                if w < rest.len() {
                    assert(rest[w] == workers[w]);
                }
            }
        }
    }
}

} // verus!
