use pinetime_core::sched::{TaskKind, TaskScheduler};

#[test]
fn scheduling_twice_keeps_the_first_due_time() {
    let mut s = TaskScheduler::new();
    assert!(s.schedule(TaskKind::WriteCounter, 100));
    // the second request is absorbed as a no-op success
    assert!(!s.schedule(TaskKind::WriteCounter, 200));
    assert!(s.is_scheduled(TaskKind::WriteCounter));
    // exactly one entry exists, with the first-submitted due time
    let h = s.dispatch_due(150).expect("the entry is due");
    assert_eq!(h.kind, TaskKind::WriteCounter);
    assert_eq!(h.due_time, 100);
    // nothing is left over from the second request
    assert!(s.dispatch_due(250).is_none());
}

#[test]
fn dispatch_picks_the_earliest_due_task() {
    let mut s = TaskScheduler::new();
    s.schedule(TaskKind::WriteCounter, 10);
    s.schedule(TaskKind::WriteFerris, 5);
    s.schedule(TaskKind::PollButton, 30);
    let h = s.dispatch_due(20).unwrap();
    assert_eq!(h.kind, TaskKind::WriteFerris);
    let h = s.dispatch_due(20).unwrap();
    assert_eq!(h.kind, TaskKind::WriteCounter);
    // the poll entry is not due yet
    assert!(s.dispatch_due(20).is_none());
    let h = s.dispatch_due(30).unwrap();
    assert_eq!(h.kind, TaskKind::PollButton);
}

#[test]
fn dispatch_breaks_due_time_ties_by_priority() {
    let mut s = TaskScheduler::new();
    s.schedule(TaskKind::WriteCounter, 7);
    s.schedule(TaskKind::BleWorker, 7);
    // same due time: the radio worker has the higher static priority
    let h = s.dispatch_due(7).unwrap();
    assert_eq!(h.kind, TaskKind::BleWorker);
    assert_eq!(h.priority, 2);
    let h = s.dispatch_due(7).unwrap();
    assert_eq!(h.kind, TaskKind::WriteCounter);
    assert_eq!(h.priority, 1);
}

#[test]
fn dispatch_orders_across_the_counter_wrap() {
    let mut s = TaskScheduler::new();
    // scheduled before the wrap; due long ago by ring distance
    s.schedule(TaskKind::WriteCounter, u32::MAX - 5);
    // scheduled after the wrap, more recently
    s.schedule(TaskKind::WriteFerris, 3);
    let h = s.dispatch_due(3).unwrap();
    assert_eq!(h.kind, TaskKind::WriteCounter);
    let h = s.dispatch_due(3).unwrap();
    assert_eq!(h.kind, TaskKind::WriteFerris);
}

#[test]
fn arm_if_idle_absorbs_repeats() {
    let mut s = TaskScheduler::new();
    assert!(s.arm_if_idle(TaskKind::BleWorker, 40));
    assert!(!s.arm_if_idle(TaskKind::BleWorker, 45));
    let h = s.dispatch_due(50).unwrap();
    assert_eq!(h.kind, TaskKind::BleWorker);
    assert_eq!(h.due_time, 40);
    assert!(s.dispatch_due(50).is_none());
}

#[test]
fn nothing_due_means_no_dispatch_and_no_change() {
    let mut s = TaskScheduler::new();
    assert!(s.dispatch_due(0).is_none());
    s.schedule(TaskKind::PollButton, 10);
    assert!(s.dispatch_due(9).is_none());
    assert!(s.is_scheduled(TaskKind::PollButton));
}
