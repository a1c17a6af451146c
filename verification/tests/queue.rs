use task_pipeline::queue::{Claim, TaskQueue};

#[test]
fn new_queue_is_open_and_empty() {
    let mut queue: TaskQueue<u32> = TaskQueue::new();
    assert_eq!(queue.len(), 0);
    assert!(!queue.is_closed());
    assert!(matches!(queue.claim(), Claim::Pending));
}

#[test]
fn queue_hands_out_in_order_of_arrival() {
    let mut queue: TaskQueue<u32> = TaskQueue::new();
    queue.enqueue(10);
    queue.enqueue(20);
    queue.enqueue(30);
    assert_eq!(queue.len(), 3);
    assert!(matches!(queue.claim(), Claim::Task(10)));
    assert!(matches!(queue.claim(), Claim::Task(20)));
    queue.enqueue(40);
    assert!(matches!(queue.claim(), Claim::Task(30)));
    assert!(matches!(queue.claim(), Claim::Task(40)));
    assert!(matches!(queue.claim(), Claim::Pending));
    assert_eq!(queue.len(), 0);
}

#[test]
fn closed_queue_is_drained_before_it_reports_closed() {
    let mut queue: TaskQueue<u32> = TaskQueue::new();
    queue.enqueue(1);
    queue.enqueue(2);
    queue.close();
    assert!(queue.is_closed());
    assert_eq!(queue.len(), 2);
    assert!(matches!(queue.claim(), Claim::Task(1)));
    assert!(matches!(queue.claim(), Claim::Task(2)));
    assert!(matches!(queue.claim(), Claim::Closed));
    assert!(matches!(queue.claim(), Claim::Closed));
}

#[test]
fn no_task_is_handed_out_twice() {
    let mut queue: TaskQueue<u32> = TaskQueue::new();
    for id in 0..100 {
        queue.enqueue(id);
    }
    queue.close();
    let mut seen = Vec::new();
    loop {
        match queue.claim() {
            Claim::Task(id) => seen.push(id),
            Claim::Pending => panic!("a closed queue never asks to wait"),
            Claim::Closed => break,
        }
    }
    assert_eq!(seen, (0..100).collect::<Vec<u32>>());
}
