use task_pipeline::driver::run;
use task_pipeline::stats::SystemStats;
use task_pipeline::task::{generate_tasks, Task, TaskResult, TimedTask};

#[test]
fn sequential_run_without_tasks() {
    let report = run(Vec::<Task>::new(), 3);
    assert_eq!(report.results, Vec::<TaskResult>::new());
    assert_eq!(
        report.stats,
        SystemStats { tasks_completed: 0, tasks_failed: 0, total_duration_ms: 0, active_workers: 0 }
    );
}

#[test]
fn sequential_run_of_twenty_generated_tasks() {
    let report = run(generate_tasks(20), 4);
    assert_eq!(report.results.len(), 20);
    for (i, result) in report.results.iter().enumerate() {
        let id = i as u32 + 1;
        let expected = match id % 3 {
            0 => TaskResult::Success { id, task_type: "compute".to_string(), duration_ms: 50 },
            1 if id % 7 == 0 => TaskResult::Error { id, message: "Download failed".to_string() },
            1 => TaskResult::Success { id, task_type: "download".to_string(), duration_ms: 100 },
            _ => TaskResult::Success { id, task_type: "process".to_string(), duration_ms: 75 },
        };
        assert_eq!(*result, expected);
    }
    // ids 1..=20: six computes, seven downloads of which id 7 fails, seven data tasks
    assert_eq!(
        report.stats,
        SystemStats {
            tasks_completed: 19,
            tasks_failed: 1,
            total_duration_ms: 6 * 50 + 6 * 100 + 7 * 75,
            active_workers: 0
        }
    );
}

#[test]
fn sequential_run_of_timed_tasks_one_to_ten() {
    let tasks: Vec<TimedTask> =
        (1..=10).map(|id| TimedTask { id, work_duration: 100 + id as u64 }).collect();
    let report = run(tasks, 3);
    assert_eq!(report.stats.tasks_completed, 8);
    assert_eq!(report.stats.tasks_failed, 2);
    assert_eq!(report.stats.total_duration_ms, 8 * 100 + 55 - 15);
    assert_eq!(report.results[4], TaskResult::Error { id: 5, message: "Task failed".to_string() });
    assert_eq!(report.results[9], TaskResult::Error { id: 10, message: "Task failed".to_string() });
    assert_eq!(
        report.results[0],
        TaskResult::Success { id: 1, task_type: "task".to_string(), duration_ms: 101 }
    );
}

#[test]
fn sequential_run_is_the_same_for_every_number_of_workers() {
    let one = run(generate_tasks(100), 1);
    for workers in [2usize, 3, 4, 7, 100, 1000] {
        let other = run(generate_tasks(100), workers);
        assert_eq!(other.results, one.results);
        assert_eq!(other.stats, one.stats);
    }
}
