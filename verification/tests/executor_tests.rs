use cluster_raft::executor::{BoundedTaskExecutor, ExecInitError, ExecutorSlot};

#[test]
fn fresh_executor_has_zero_counters() {
    let exec = BoundedTaskExecutor::new(4, 16);
    assert_eq!(exec.waiting_count(), 0);
    assert_eq!(exec.active_count(), 0);
    assert_eq!(exec.completed_count(), 0);
}

#[test]
fn backpressure_rejects_the_item_past_queue_max() {
    // Workers saturated: 2 workers, both busy; queue_max = 3.
    let mut exec = BoundedTaskExecutor::new(2, 3);
    assert!(exec.try_submit(100));
    assert!(exec.try_submit(101));
    assert_eq!(exec.start_next(), Some(100));
    assert_eq!(exec.start_next(), Some(101));
    assert_eq!(exec.start_next(), None); // no worker free
    assert_eq!(exec.active_count(), 2);

    // queue_max items are admitted while the workers stay saturated...
    assert!(exec.try_submit(1));
    assert!(exec.try_submit(2));
    assert!(exec.try_submit(3));
    // ...and the (queue_max + 1)-th is rejected, not queued.
    assert!(!exec.try_submit(4));
    assert_eq!(exec.waiting_count(), 3);
}

#[test]
fn tasks_start_in_admission_order() {
    let mut exec = BoundedTaskExecutor::new(3, 8);
    assert!(exec.try_submit(7));
    assert!(exec.try_submit(8));
    assert!(exec.try_submit(9));
    assert_eq!(exec.start_next(), Some(7));
    assert_eq!(exec.start_next(), Some(8));
    assert_eq!(exec.start_next(), Some(9));
    assert_eq!(exec.start_next(), None);
}

#[test]
fn counters_move_from_waiting_through_active_to_completed() {
    let mut exec = BoundedTaskExecutor::new(2, 4);
    assert!(exec.try_submit(1));
    assert!(exec.try_submit(2));
    assert_eq!((exec.waiting_count(), exec.active_count(), exec.completed_count()), (2, 0, 0));
    assert_eq!(exec.start_next(), Some(1));
    assert_eq!((exec.waiting_count(), exec.active_count(), exec.completed_count()), (1, 1, 0));
    exec.complete_one();
    assert_eq!((exec.waiting_count(), exec.active_count(), exec.completed_count()), (1, 0, 1));
    assert_eq!(exec.start_next(), Some(2));
    exec.complete_one();
    assert_eq!((exec.waiting_count(), exec.active_count(), exec.completed_count()), (0, 0, 2));
}

#[test]
fn completing_frees_a_worker_for_the_next_task() {
    let mut exec = BoundedTaskExecutor::new(1, 4);
    assert!(exec.try_submit(1));
    assert!(exec.try_submit(2));
    assert_eq!(exec.start_next(), Some(1));
    assert_eq!(exec.start_next(), None); // the only worker is busy
    exec.complete_one();
    assert_eq!(exec.start_next(), Some(2));
}

#[test]
fn stats_snapshot_reflects_counters() {
    let mut exec = BoundedTaskExecutor::new(2, 4);
    assert!(exec.try_submit(1));
    assert!(exec.try_submit(2));
    assert_eq!(exec.start_next(), Some(1));
    let s = exec.stats();
    assert_eq!(s.waiting_count, 1);
    assert_eq!(s.active_count, 1);
    assert_eq!(s.completed_count, 0);
}

#[test]
fn slot_initializes_exactly_once() {
    let mut slot = ExecutorSlot::empty();
    assert_eq!(slot.init(4, 16), Ok(()));
    assert_eq!(slot.init(8, 32), Err(ExecInitError::AlreadyInitialized));
    assert_eq!(slot.get().waiting_count(), 0);
}

#[test]
fn slot_hands_out_the_one_executor() {
    let mut slot = ExecutorSlot::empty();
    assert_eq!(slot.init(2, 2), Ok(()));
    assert!(slot.get_mut().try_submit(5));
    assert!(slot.get_mut().try_submit(6));
    assert!(!slot.get_mut().try_submit(7)); // queue_max reached
    assert_eq!(slot.get().waiting_count(), 2);
}
