use coop_kernel::executor::{Fault, Kernel};

#[test]
fn startup_enqueues_every_task_once_in_order() {
    let mut k = Kernel::new();
    k.start(3);
    assert_eq!(k.next_ready(3), Some(0));
    assert_eq!(k.next_ready(3), Some(1));
    assert_eq!(k.next_ready(3), Some(2));
    assert_eq!(k.next_ready(3), None);
}

#[test]
fn waking_the_same_task_twice_uses_two_slots() {
    let mut k = Kernel::new();
    k.wake_task(1);
    k.wake_task(1);
    assert_eq!(k.next_ready(2), Some(1));
    assert_eq!(k.next_ready(2), Some(1));
    assert_eq!(k.next_ready(2), None);
}

#[test]
fn out_of_range_wakes_are_skipped_not_fatal() {
    let mut k = Kernel::new();
    k.wake_task(7);
    k.wake_task(1);
    assert_eq!(k.next_ready(3), Some(1));
    assert_eq!(k.next_ready(3), None);
    assert_eq!(k.fault, None);
}

#[test]
fn overflowing_the_ready_queue_is_fatal() {
    let mut k = Kernel::new();
    for i in 0..4usize {
        k.wake_task(i);
        assert_eq!(k.fault, None);
    }
    k.wake_task(2);
    assert_eq!(k.fault, Some(Fault::ReadyQueueFull(2)));
}
