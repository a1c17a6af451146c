//! Units of work, the routines that process them, and the results they yield.

use crate::text::{decimal, push_decimal};
use vstd::prelude::*;
use vstd::string::StringExecFns;

verus! {

/// One unit of work. The `id` identifies the task within a run.
#[derive(Debug, Clone, PartialEq, Eq)]
pub enum Task {
    Compute { id: u32, iterations: u32 },
    Download { id: u32, url: String },
    Process { id: u32, data: Vec<u32> },
}

/// The mathematical content of a [`Task`].
pub enum TaskView {
    Compute { id: u32, iterations: u32 },
    Download { id: u32, url: Seq<char> },
    Process { id: u32, data: Seq<u32> },
}

impl View for Task {
    type V = TaskView;

    open spec fn view(&self) -> TaskView {
        match *self {
            Task::Compute { id, iterations } => TaskView::Compute { id, iterations },
            Task::Download { id, url } => TaskView::Download { id, url: url@ },
            Task::Process { id, data } => TaskView::Process { id, data: data@ },
        }
    }
}

/// A task that only takes time: `work_duration` milliseconds of it.
#[derive(Debug, Clone, Copy, PartialEq, Eq)]
pub struct TimedTask {
    pub id: u32,
    pub work_duration: u64,
}

/// What became of one task.
#[derive(Debug, PartialEq, Eq)]
pub enum TaskResult {
    Success { id: u32, task_type: String, duration_ms: u128 },
    Error { id: u32, message: String },
}

/// The mathematical content of a [`TaskResult`].
pub enum TaskResultView {
    Success { id: u32, task_type: Seq<char>, duration_ms: u128 },
    Error { id: u32, message: Seq<char> },
}

impl TaskResultView {
    /// The id of the task that this result answers.
    pub open spec fn id(self) -> u32 {
        match self {
            TaskResultView::Success { id, .. } => id,
            TaskResultView::Error { id, .. } => id,
        }
    }

    /// The time that counts towards the total: that of a success, nothing for a failure.
    pub open spec fn duration(self) -> nat {
        match self {
            TaskResultView::Success { duration_ms, .. } => duration_ms as nat,
            TaskResultView::Error { .. } => 0,
        }
    }
}

impl View for TaskResult {
    type V = TaskResultView;

    open spec fn view(&self) -> TaskResultView {
        match *self {
            TaskResult::Success { id, task_type, duration_ms } => TaskResultView::Success {
                id,
                task_type: task_type@,
                duration_ms,
            },
            TaskResult::Error { id, message } => TaskResultView::Error { id, message: message@ },
        }
    }
}

impl TaskResult {
    /// The id of the task that this result answers.
    pub fn id(&self) -> (id: u32)
        ensures
            id == self@.id(),
    {
        match self {
            TaskResult::Success { id, .. } => *id,
            TaskResult::Error { id, .. } => *id,
        }
    }

    /// Whether the task succeeded.
    pub fn is_success(&self) -> (yes: bool)
        ensures
            yes == (self@ is Success),
    {
        match self {
            TaskResult::Success { .. } => true,
            TaskResult::Error { .. } => false,
        }
    }
}

/// The sum of the numbers in `data`.
pub open spec fn total_of(data: Seq<u32>) -> nat
    decreases data.len(),
{
    if data.len() == 0 {
        0
    } else {
        total_of(data.drop_last()) + data.last() as nat
    }
}

/// The sum of `data` is at most `u32::MAX` for each of its elements.
pub proof fn lemma_total_of_bound(data: Seq<u32>)
    ensures
        total_of(data) <= data.len() * 0xffff_ffff,
    decreases data.len(),
{
    if data.len() > 0 {
        lemma_total_of_bound(data.drop_last());
    }
}

/// What a compute task reports.
pub open spec fn computed_message(iterations: u32) -> Seq<char> {
    "Computed "@ + decimal(iterations as nat) + " iterations"@
}

/// What a download reports when it succeeds.
pub open spec fn downloaded_message(url: Seq<char>) -> Seq<char> {
    "Downloaded from "@ + url
}

/// What a data task reports.
pub open spec fn processed_message(data: Seq<u32>) -> Seq<char> {
    "Processed "@ + decimal(data.len()) + " items, sum: "@ + decimal(total_of(data))
}

/// What a timed task reports when it succeeds.
pub open spec fn completed_message(id: u32) -> Seq<char> {
    "Task "@ + decimal(id as nat) + " completed"@
}

/// Whether a download with this id fails.
pub open spec fn download_fails(id: u32) -> bool {
    id % 7 == 0
}

/// Whether a timed task with this id fails.
pub open spec fn timed_task_fails(id: u32) -> bool {
    id % 5 == 0
}

/// The characters of an outcome's payload or error message.
pub open spec fn outcome_view(outcome: Result<String, String>) -> Result<Seq<char>, Seq<char>> {
    match outcome {
        Ok(payload) => Ok(payload@),
        Err(message) => Err(message@),
    }
}

/// The routine for compute tasks: always succeeds and reports the iterations.
pub fn process_compute(id: u32, iterations: u32) -> (outcome: Result<String, String>)
    ensures
        outcome_view(outcome) == Ok::<Seq<char>, Seq<char>>(computed_message(iterations)),
{
    let mut payload = String::from_str("Computed ");
    push_decimal(&mut payload, iterations as u128);
    payload.append(" iterations");
    Ok(payload)
}

/// The routine for downloads: fails for every id that is a multiple of 7, else
/// reports the address.
pub fn process_download(id: u32, url: &str) -> (outcome: Result<String, String>)
    ensures
        outcome_view(outcome) == if download_fails(id) {
            Err::<Seq<char>, Seq<char>>("Download failed"@)
        } else {
            Ok::<Seq<char>, Seq<char>>(downloaded_message(url@))
        },
{
    if id % 7 == 0 {
        Err(String::from_str("Download failed"))
    } else {
        let mut payload = String::from_str("Downloaded from ");
        payload.append(url);
        Ok(payload)
    }
}

/// The routine for data tasks: always succeeds and reports how many numbers it
/// was given and their sum. The sum is exact: it is taken in 128 bits, which no
/// vector of `u32` can exceed.
pub fn process_data(id: u32, data: &Vec<u32>) -> (outcome: Result<String, String>)
    ensures
        outcome_view(outcome) == Ok::<Seq<char>, Seq<char>>(processed_message(data@)),
{
    let mut sum: u128 = 0;
    let mut i: usize = 0;
    while i < data.len()
        invariant
            i <= data.len(),
            sum == total_of(data@.take(i as int)),
        decreases data.len() - i,
    {
        proof {
            lemma_total_of_bound(data@.take(i as int));
            assert(data@.take(i + 1).drop_last() =~= data@.take(i as int));
        }
        sum = sum + data[i] as u128;
        i = i + 1;
    }
    assert(data@.take(data.len() as int) =~= data@);
    let mut payload = String::from_str("Processed ");
    push_decimal(&mut payload, data.len() as u128);
    payload.append(" items, sum: ");
    push_decimal(&mut payload, sum);
    Ok(payload)
}

/// The routine for timed tasks: fails for every id that is a multiple of 5.
pub fn process_timed(id: u32) -> (outcome: Result<String, String>)
    ensures
        outcome_view(outcome) == if timed_task_fails(id) {
            Err::<Seq<char>, Seq<char>>("Task failed"@)
        } else {
            Ok::<Seq<char>, Seq<char>>(completed_message(id))
        },
{
    if id % 5 == 0 {
        Err(String::from_str("Task failed"))
    } else {
        let mut payload = String::from_str("Task ");
        push_decimal(&mut payload, id as u128);
        payload.append(" completed");
        Ok(payload)
    }
}

/// What a worker needs of a unit of work: who it is, what kind it is, how long
/// it pretends to take, and the routine that decides its outcome.
///
/// The outcome is a function of the job alone. That is what makes a run
/// reproducible whatever the number of workers.
pub trait Job: Sized {
    /// The id that the job's result will echo.
    spec fn spec_id(&self) -> u32;

    /// The label of the job's kind.
    spec fn spec_label(&self) -> Seq<char>;

    /// The milliseconds the job stands for.
    spec fn spec_work_ms(&self) -> u64;

    /// The outcome of the job's routine: a payload, or an error message.
    spec fn spec_outcome(&self) -> Result<Seq<char>, Seq<char>>;

    fn id(&self) -> (id: u32)
        ensures
            id == self.spec_id(),
    ;

    fn label(&self) -> (label: String)
        ensures
            label@ == self.spec_label(),
    ;

    fn work_ms(&self) -> (ms: u64)
        ensures
            ms == self.spec_work_ms(),
    ;

    /// Runs the routine that belongs to this job's kind.
    fn process(&self) -> (outcome: Result<String, String>)
        ensures
            outcome_view(outcome) == self.spec_outcome(),
    ;
}

impl Job for Task {
    open spec fn spec_id(&self) -> u32 {
        match *self {
            Task::Compute { id, .. } => id,
            Task::Download { id, .. } => id,
            Task::Process { id, .. } => id,
        }
    }

    open spec fn spec_label(&self) -> Seq<char> {
        match *self {
            Task::Compute { .. } => "compute"@,
            Task::Download { .. } => "download"@,
            Task::Process { .. } => "process"@,
        }
    }

    open spec fn spec_work_ms(&self) -> u64 {
        match *self {
            Task::Compute { .. } => 50,
            Task::Download { .. } => 100,
            Task::Process { .. } => 75,
        }
    }

    open spec fn spec_outcome(&self) -> Result<Seq<char>, Seq<char>> {
        match *self {
            Task::Compute { iterations, .. } => Ok(computed_message(iterations)),
            Task::Download { id, url } => if download_fails(id) {
                Err("Download failed"@)
            } else {
                Ok(downloaded_message(url@))
            },
            Task::Process { data, .. } => Ok(processed_message(data@)),
        }
    }

    fn id(&self) -> (id: u32) {
        match self {
            Task::Compute { id, .. } => *id,
            Task::Download { id, .. } => *id,
            Task::Process { id, .. } => *id,
        }
    }

    fn label(&self) -> (label: String) {
        match self {
            Task::Compute { .. } => String::from_str("compute"),
            Task::Download { .. } => String::from_str("download"),
            Task::Process { .. } => String::from_str("process"),
        }
    }

    fn work_ms(&self) -> (ms: u64) {
        match self {
            Task::Compute { .. } => 50,
            Task::Download { .. } => 100,
            Task::Process { .. } => 75,
        }
    }

    fn process(&self) -> (outcome: Result<String, String>) {
        match self {
            Task::Compute { id, iterations } => process_compute(*id, *iterations),
            Task::Download { id, url } => process_download(*id, url.as_str()),
            Task::Process { id, data } => process_data(*id, data),
        }
    }
}

impl Job for TimedTask {
    open spec fn spec_id(&self) -> u32 {
        self.id
    }

    open spec fn spec_label(&self) -> Seq<char> {
        "task"@
    }

    open spec fn spec_work_ms(&self) -> u64 {
        self.work_duration
    }

    open spec fn spec_outcome(&self) -> Result<Seq<char>, Seq<char>> {
        if timed_task_fails(self.id) {
            Err("Task failed"@)
        } else {
            Ok(completed_message(self.id))
        }
    }

    fn id(&self) -> (id: u32) {
        self.id
    }

    fn label(&self) -> (label: String) {
        String::from_str("task")
    }

    fn work_ms(&self) -> (ms: u64) {
        self.work_duration
    }

    fn process(&self) -> (outcome: Result<String, String>) {
        process_timed(self.id)
    }
}

/// Whether the job's routine fails.
pub open spec fn fails<T: Job>(job: T) -> bool {
    job.spec_outcome() is Err
}

/// The result that a worker reports for `job` after `elapsed_ms` milliseconds:
/// a success carries the kind's label and the time, a failure the routine's
/// message; both echo the job's id.
pub open spec fn result_of<T: Job>(job: T, elapsed_ms: u64) -> TaskResultView {
    match job.spec_outcome() {
        Ok(_) => TaskResultView::Success {
            id: job.spec_id(),
            task_type: job.spec_label(),
            duration_ms: elapsed_ms as u128,
        },
        Err(message) => TaskResultView::Error { id: job.spec_id(), message },
    }
}

/// One worker step: runs the job's routine and wraps its outcome, with the time
/// the caller measured, as the result to report.
pub fn process_task<T: Job>(task: &T, elapsed_ms: u64) -> (result: TaskResult)
    ensures
        result@ == result_of(*task, elapsed_ms),
{
    match task.process() {
        Ok(_) => TaskResult::Success {
            id: task.id(),
            task_type: task.label(),
            duration_ms: elapsed_ms as u128,
        },
        Err(message) => TaskResult::Error { id: task.id(), message },
    }
}

/// The task with the given id in a generated batch: ids cycle through
/// download, process, compute.
pub open spec fn generated_task(id: u32) -> TaskView {
    if id % 3 == 0 {
        TaskView::Compute { id, iterations: 1000 }
    } else if id % 3 == 1 {
        TaskView::Download { id, url: "http://example.com/"@ + decimal(id as nat) }
    } else {
        TaskView::Process { id, data: seq![1u32, 2u32, 3u32, 4u32, 5u32] }
    }
}

/// A batch of `count` tasks with the ids `1..=count`, in that order: no id
/// occurs twice.
pub fn generate_tasks(count: u32) -> (tasks: Vec<Task>)
    ensures
        tasks.len() == count,
        forall|i: int| 0 <= i < count ==> (#[trigger] tasks[i])@ == generated_task((i + 1) as u32),
        forall|i: int| 0 <= i < count ==> (#[trigger] tasks[i]).spec_id() == i + 1,
{
    let mut tasks: Vec<Task> = Vec::new();
    let mut made: u32 = 0;
    while made < count
        invariant
            made <= count,
            tasks.len() == made,
            forall|i: int| 0 <= i < made ==> (#[trigger] tasks[i])@ == generated_task((i + 1) as u32),
            forall|i: int| 0 <= i < made ==> (#[trigger] tasks[i]).spec_id() == i + 1,
        decreases count - made,
    {
        let id: u32 = made + 1;
        let task = if id % 3 == 0 {
            Task::Compute { id, iterations: 1000 }
        } else if id % 3 == 1 {
            let mut url = String::from_str("http://example.com/");
            push_decimal(&mut url, id as u128);
            Task::Download { id, url }
        } else {
            let mut data: Vec<u32> = Vec::new();
            data.push(1);
            data.push(2);
            data.push(3);
            data.push(4);
            data.push(5);
            assert(data@ =~= seq![1u32, 2u32, 3u32, 4u32, 5u32]);
            Task::Process { id, data }
        };
        tasks.push(task);
        made = id;
    }
    tasks
}

} // verus!
