use task_pipeline::stats::{Stats, SystemStats};
use task_pipeline::task::TaskResult;

fn success(id: u32, duration_ms: u128) -> TaskResult {
    TaskResult::Success { id, task_type: "compute".to_string(), duration_ms }
}

fn failure(id: u32) -> TaskResult {
    TaskResult::Error { id, message: "Task failed".to_string() }
}

#[test]
fn new_stats_are_empty() {
    assert_eq!(Stats::new(), Stats { completed: 0, failed: 0, total_time_ms: 0 });
}

#[test]
fn new_system_stats_are_empty() {
    assert_eq!(
        SystemStats::new(),
        SystemStats { tasks_completed: 0, tasks_failed: 0, total_duration_ms: 0, active_workers: 0 }
    );
}

#[test]
fn stats_record_a_success() {
    let mut stats = Stats::new();
    stats.record(&success(1, 120));
    assert_eq!(stats, Stats { completed: 1, failed: 0, total_time_ms: 120 });
    stats.record(&success(2, 80));
    assert_eq!(stats, Stats { completed: 2, failed: 0, total_time_ms: 200 });
}

#[test]
fn stats_record_a_failure_without_time() {
    let mut stats = Stats { completed: 4, failed: 0, total_time_ms: 530 };
    stats.record(&failure(5));
    assert_eq!(stats, Stats { completed: 4, failed: 1, total_time_ms: 530 });
}

#[test]
fn stats_accept_until_a_field_is_full() {
    let full = Stats { completed: u32::MAX, failed: u32::MAX, total_time_ms: 10 };
    assert!(!full.accepts(&success(1, 0)));
    assert!(!full.accepts(&failure(1)));
    let nearly = Stats { completed: u32::MAX - 1, failed: u32::MAX - 1, total_time_ms: u64::MAX - 5 };
    assert!(nearly.accepts(&success(1, 5)));
    assert!(!nearly.accepts(&success(1, 6)));
    assert!(!nearly.accepts(&success(1, u128::MAX)));
    assert!(nearly.accepts(&failure(1)));
    let mut stats = nearly;
    stats.record(&success(1, 5));
    stats.record(&failure(2));
    assert_eq!(stats, Stats { completed: u32::MAX, failed: u32::MAX, total_time_ms: u64::MAX });
}

#[test]
fn stats_snapshot_is_a_copy() {
    let mut stats = Stats::new();
    stats.record(&success(1, 7));
    let copy = stats.snapshot();
    stats.record(&failure(2));
    assert_eq!(copy, Stats { completed: 1, failed: 0, total_time_ms: 7 });
    assert_eq!(stats, Stats { completed: 1, failed: 1, total_time_ms: 7 });
}

#[test]
fn system_stats_record_successes_and_failures() {
    let mut stats = SystemStats::new();
    stats.record(&success(1, 100));
    stats.record(&failure(7));
    stats.record(&success(2, 75));
    assert_eq!(
        stats,
        SystemStats { tasks_completed: 2, tasks_failed: 1, total_duration_ms: 175, active_workers: 0 }
    );
}

#[test]
fn system_stats_record_leaves_active_workers() {
    let mut stats =
        SystemStats { tasks_completed: 0, tasks_failed: 0, total_duration_ms: 0, active_workers: 3 };
    stats.record(&success(1, 1));
    stats.record(&failure(2));
    assert_eq!(stats.active_workers, 3);
}

#[test]
fn system_stats_accept_until_a_field_is_full() {
    let nearly = SystemStats {
        tasks_completed: u32::MAX - 1,
        tasks_failed: u32::MAX,
        total_duration_ms: u128::MAX - 1,
        active_workers: 0,
    };
    assert!(nearly.accepts(&success(1, 1)));
    assert!(!nearly.accepts(&success(1, 2)));
    assert!(!nearly.accepts(&failure(1)));
    let mut stats = nearly;
    stats.record(&success(1, 1));
    assert_eq!(stats.tasks_completed, u32::MAX);
    assert_eq!(stats.total_duration_ms, u128::MAX);
    assert!(!stats.accepts(&success(1, 0)));
}

#[test]
fn system_stats_snapshot_is_a_copy() {
    let mut stats = SystemStats::new();
    stats.record(&failure(1));
    let copy = stats.snapshot();
    stats.record(&success(2, 9));
    assert_eq!(
        copy,
        SystemStats { tasks_completed: 0, tasks_failed: 1, total_duration_ms: 0, active_workers: 0 }
    );
    assert_eq!(stats.tasks_completed, 1);
}
