use coop_kernel::executor::{Fault, Kernel};
use coop_kernel::future::{OurFuture, Poll};
use coop_kernel::time::Timer;

#[test]
fn timer_is_ready_at_its_deadline_and_never_before() {
    let mut k = Kernel::new();
    let mut t = Timer::new(1000, 500);
    // First poll registers the deadline and suspends.
    assert!(matches!(t.poll(&mut k, 1000, 0), Poll::Pending));
    // One tick early: still pending.
    assert!(matches!(t.poll(&mut k, 1499, 0), Poll::Pending));
    // Exactly at the deadline: ready.
    assert!(matches!(t.poll(&mut k, 1500, 0), Poll::Ready(())));
}

#[test]
fn registering_the_earliest_deadline_arms_the_compare_model() {
    let mut k = Kernel::new();
    let mut t = Timer::new(1000, 500);
    let _ = t.poll(&mut k, 1000, 0);
    assert_eq!(k.armed, Some(1500));
    assert_eq!(k.deadlines.len(), 1);
    // A later deadline does not re-arm.
    let mut t2 = Timer::new(1000, 9000);
    let _ = t2.poll(&mut k, 1000, 1);
    assert_eq!(k.armed, Some(1500));
    assert_eq!(k.deadlines.len(), 2);
}

#[test]
fn due_deadline_wakes_immediately_instead_of_arming() {
    let mut k = Kernel::new();
    // Target counter value equals "current": woken at once.
    let mut t = Timer::new(1000, 0);
    assert!(matches!(t.poll(&mut k, 1000, 3), Poll::Pending));
    assert_eq!(k.deadlines.len(), 0);
    assert_eq!(k.armed, None);
    assert_eq!(k.next_ready(4), Some(3));
    assert_eq!(k.fault, None);
}

#[test]
fn deadline_within_one_tick_wakes_immediately() {
    let mut k = Kernel::new();
    let mut t = Timer::new(1000, 1);
    let _ = t.poll(&mut k, 1000, 2);
    assert_eq!(k.armed, None);
    assert_eq!(k.next_ready(4), Some(2));
}

#[test]
fn deadline_two_ticks_ahead_is_armed_not_woken() {
    let mut k = Kernel::new();
    let mut t = Timer::new(1000, 2);
    let _ = t.poll(&mut k, 1000, 2);
    assert_eq!(k.armed, Some(1002));
    assert_eq!(k.next_ready(4), None);
}

#[test]
fn registering_more_deadlines_than_capacity_is_fatal() {
    let mut k = Kernel::new();
    for i in 0..8usize {
        let _ = k.register_deadline(10_000 + i as u64, i, 0);
        assert_eq!(k.fault, None);
    }
    assert_eq!(k.deadlines.len(), 8);
    let _ = k.register_deadline(20_000, 3, 0);
    assert_eq!(k.fault, Some(Fault::DeadlineHeapFull(3)));
    assert_eq!(k.deadlines.len(), 8);
}
