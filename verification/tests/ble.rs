use pinetime_core::ble::{
    BleBridge, LinkCmd, PacketRing, handle_link_command, handle_radio_interrupt,
    handle_timer_interrupt,
};
use pinetime_core::sched::{TaskKind, TaskScheduler};

#[test]
fn ring_is_first_in_first_out() {
    let mut r = PacketRing::new(3);
    assert!(r.is_empty());
    assert!(r.push(vec![1]));
    assert!(r.push(vec![2, 2]));
    assert_eq!(r.len(), 2);
    assert_eq!(r.pop(), Some(vec![1]));
    assert_eq!(r.pop(), Some(vec![2, 2]));
    assert_eq!(r.pop(), None);
}

#[test]
fn full_ring_rejects_without_losing_anything() {
    let mut r = PacketRing::new(2);
    assert!(r.push(vec![1]));
    assert!(r.push(vec![2]));
    assert!(!r.push(vec![3]));
    assert_eq!(r.len(), 2);
    assert_eq!(r.pop(), Some(vec![1]));
    // popping frees a slot again
    assert!(r.push(vec![3]));
}

#[test]
fn command_with_queued_work_arms_the_worker_idempotently() {
    let mut s = TaskScheduler::new();
    let cmd = LinkCmd { next_update: 500, queued_work: true };
    assert_eq!(handle_link_command(&mut s, 20, cmd), 500);
    assert!(s.is_scheduled(TaskKind::BleWorker));
    // a second interrupt before the worker ran is absorbed
    let cmd2 = LinkCmd { next_update: 700, queued_work: true };
    assert_eq!(handle_timer_interrupt(&mut s, 30, cmd2), 700);
    let h = s.dispatch_due(40).unwrap();
    assert_eq!(h.kind, TaskKind::BleWorker);
    assert_eq!(h.due_time, 20);
    assert!(s.dispatch_due(40).is_none());
}

#[test]
fn command_without_queued_work_arms_nothing() {
    let mut s = TaskScheduler::new();
    let cmd = LinkCmd { next_update: 500, queued_work: false };
    assert_eq!(handle_link_command(&mut s, 20, cmd), 500);
    assert!(!s.is_scheduled(TaskKind::BleWorker));
}

#[test]
fn quiet_radio_event_changes_nothing() {
    let mut s = TaskScheduler::new();
    assert_eq!(handle_radio_interrupt(&mut s, 5, None), None);
    assert!(!s.is_scheduled(TaskKind::BleWorker));
    let cmd = LinkCmd { next_update: 90, queued_work: false };
    assert_eq!(handle_radio_interrupt(&mut s, 6, Some(cmd)), Some(90));
    assert!(!s.is_scheduled(TaskKind::BleWorker));
}

#[test]
fn worker_drains_to_exhaustion_in_arrival_order() {
    let mut b = BleBridge::new(4);
    assert!(b.push_received(vec![1, 2]));
    assert!(b.push_received(vec![3]));
    assert!(b.push_received(vec![4, 5, 6]));
    assert!(b.has_work());
    let drained = b.worker_drain();
    assert_eq!(drained, vec![vec![1, 2], vec![3], vec![4, 5, 6]]);
    assert!(!b.has_work());
    assert_eq!(b.worker_drain(), Vec::<Vec<u8>>::new());
}

#[test]
fn transmit_ring_is_separate_from_receive() {
    let mut b = BleBridge::new(2);
    assert!(b.queue_response(vec![9]));
    assert!(b.push_received(vec![1]));
    assert!(b.has_work());
    assert_eq!(b.take_outgoing(), Some(vec![9]));
    assert_eq!(b.take_outgoing(), None);
    // the receive side still holds its packet
    assert_eq!(b.worker_drain(), vec![vec![1]]);
}
