use task_pipeline::task::{
    generate_tasks, process_compute, process_data, process_download, process_task, process_timed,
    Job, Task, TaskResult, TimedTask,
};

#[test]
fn generate_no_tasks() {
    assert_eq!(generate_tasks(0), Vec::<Task>::new());
}

#[test]
fn generate_cycles_through_the_kinds() {
    let tasks = generate_tasks(4);
    assert_eq!(
        tasks,
        vec![
            Task::Download { id: 1, url: "http://example.com/1".to_string() },
            Task::Process { id: 2, data: vec![1, 2, 3, 4, 5] },
            Task::Compute { id: 3, iterations: 1000 },
            Task::Download { id: 4, url: "http://example.com/4".to_string() },
        ]
    );
}

#[test]
fn generate_twenty_tasks_with_ids_one_to_twenty() {
    let tasks = generate_tasks(20);
    assert_eq!(tasks.len(), 20);
    for (i, task) in tasks.iter().enumerate() {
        let id = i as u32 + 1;
        assert_eq!(task.id(), id);
        match id % 3 {
            0 => assert_eq!(*task, Task::Compute { id, iterations: 1000 }),
            1 => assert_eq!(*task, Task::Download { id, url: format!("http://example.com/{}", id) }),
            _ => assert_eq!(*task, Task::Process { id, data: vec![1, 2, 3, 4, 5] }),
        }
    }
}

#[test]
fn compute_reports_its_iterations() {
    assert_eq!(process_compute(3, 1000), Ok("Computed 1000 iterations".to_string()));
    assert_eq!(process_compute(7, 0), Ok("Computed 0 iterations".to_string()));
    assert_eq!(
        process_compute(35, u32::MAX),
        Ok("Computed 4294967295 iterations".to_string())
    );
}

#[test]
fn download_fails_for_multiples_of_seven() {
    for id in [0u32, 7, 14, 21, 700, 4294967292] {
        assert_eq!(process_download(id, "http://example.com/x"), Err("Download failed".to_string()));
    }
}

#[test]
fn download_reports_the_address_otherwise() {
    for id in [1u32, 6, 8, 13, 15, u32::MAX] {
        assert_eq!(
            process_download(id, "http://example.com/x"),
            Ok("Downloaded from http://example.com/x".to_string())
        );
    }
    assert_eq!(process_download(1, ""), Ok("Downloaded from ".to_string()));
}

#[test]
fn data_reports_count_and_sum() {
    assert_eq!(
        process_data(2, &vec![1, 2, 3, 4, 5]),
        Ok("Processed 5 items, sum: 15".to_string())
    );
    assert_eq!(process_data(2, &vec![]), Ok("Processed 0 items, sum: 0".to_string()));
    assert_eq!(process_data(7, &vec![42]), Ok("Processed 1 items, sum: 42".to_string()));
}

#[test]
fn data_sum_is_exact_beyond_thirty_two_bits() {
    assert_eq!(
        process_data(2, &vec![u32::MAX, u32::MAX, 2]),
        Ok("Processed 3 items, sum: 8589934592".to_string())
    );
}

#[test]
fn timed_task_fails_for_multiples_of_five() {
    for id in [0u32, 5, 10, 15, 4294967295] {
        assert_eq!(process_timed(id), Err("Task failed".to_string()));
    }
}

#[test]
fn timed_task_reports_completion_otherwise() {
    assert_eq!(process_timed(1), Ok("Task 1 completed".to_string()));
    assert_eq!(process_timed(4), Ok("Task 4 completed".to_string()));
    assert_eq!(process_timed(4294967294), Ok("Task 4294967294 completed".to_string()));
}

#[test]
fn task_dispatches_to_the_routine_of_its_kind() {
    let compute = Task::Compute { id: 7, iterations: 12 };
    let download = Task::Download { id: 7, url: "u".to_string() };
    let other = Task::Download { id: 8, url: "u".to_string() };
    let data = Task::Process { id: 7, data: vec![10, 20] };
    assert_eq!(compute.process(), Ok("Computed 12 iterations".to_string()));
    assert_eq!(download.process(), Err("Download failed".to_string()));
    assert_eq!(other.process(), Ok("Downloaded from u".to_string()));
    assert_eq!(data.process(), Ok("Processed 2 items, sum: 30".to_string()));
}

#[test]
fn task_labels_and_durations_by_kind() {
    let compute = Task::Compute { id: 1, iterations: 12 };
    let download = Task::Download { id: 2, url: "u".to_string() };
    let data = Task::Process { id: 3, data: vec![] };
    assert_eq!((compute.id(), compute.label(), compute.work_ms()), (1, "compute".to_string(), 50));
    assert_eq!((download.id(), download.label(), download.work_ms()), (2, "download".to_string(), 100));
    assert_eq!((data.id(), data.label(), data.work_ms()), (3, "process".to_string(), 75));
}

#[test]
fn timed_task_is_its_own_job() {
    let task = TimedTask { id: 9, work_duration: 170 };
    assert_eq!(task.id(), 9);
    assert_eq!(task.label(), "task");
    assert_eq!(task.work_ms(), 170);
    assert_eq!(task.process(), Ok("Task 9 completed".to_string()));
    assert_eq!(TimedTask { id: 10, work_duration: 60 }.process(), Err("Task failed".to_string()));
}

#[test]
fn process_task_wraps_a_success_with_label_and_time() {
    let result = process_task(&Task::Compute { id: 3, iterations: 1000 }, 51);
    assert_eq!(
        result,
        TaskResult::Success { id: 3, task_type: "compute".to_string(), duration_ms: 51 }
    );
    assert!(result.is_success());
    assert_eq!(result.id(), 3);
    let result = process_task(&TimedTask { id: 3, work_duration: 150 }, u64::MAX);
    assert_eq!(
        result,
        TaskResult::Success {
            id: 3,
            task_type: "task".to_string(),
            duration_ms: 18446744073709551615
        }
    );
}

#[test]
fn process_task_wraps_a_failure_with_its_message() {
    let result = process_task(&TimedTask { id: 5, work_duration: 180 }, 181);
    assert_eq!(result, TaskResult::Error { id: 5, message: "Task failed".to_string() });
    assert!(!result.is_success());
    assert_eq!(result.id(), 5);
}

#[test]
fn single_download_with_a_multiple_of_seven_fails() {
    let result = process_task(&Task::Download { id: 14, url: "http://example.com/14".to_string() }, 100);
    assert_eq!(result, TaskResult::Error { id: 14, message: "Download failed".to_string() });
}
