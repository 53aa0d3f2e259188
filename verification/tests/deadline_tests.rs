use coop_kernel::clock::COUNTER_PERIOD;
use coop_kernel::executor::Kernel;

#[test]
fn deadlines_wake_in_nondecreasing_order() {
    let mut k = Kernel::new();
    let _ = k.register_deadline(5000, 0, 0);
    let _ = k.register_deadline(3000, 1, 0);
    let _ = k.register_deadline(4000, 2, 0);
    assert_eq!(k.fault, None);
    // Time has advanced past all three deadlines: the compare interrupt
    // handler pops every one of them, earliest first.
    let _ = k.on_compare(6000);
    assert_eq!(k.fault, None);
    assert_eq!(k.deadlines.len(), 0);
    assert_eq!(k.armed, None);
    assert_eq!(k.next_ready(3), Some(1));
    assert_eq!(k.next_ready(3), Some(2));
    assert_eq!(k.next_ready(3), Some(0));
    assert_eq!(k.next_ready(3), None);
}

#[test]
fn only_due_deadlines_wake_and_the_next_is_armed() {
    let mut k = Kernel::new();
    let _ = k.register_deadline(100, 0, 0);
    let _ = k.register_deadline(5000, 1, 0);
    let _ = k.on_compare(100);
    assert_eq!(k.next_ready(2), Some(0));
    assert_eq!(k.next_ready(2), None);
    assert_eq!(k.deadlines.len(), 1);
    assert_eq!(k.armed, Some(5000));
}

#[test]
fn deadline_beyond_the_current_epoch_waits_for_the_overflow() {
    let mut k = Kernel::new();
    let deadline = COUNTER_PERIOD + 50;
    let _ = k.register_deadline(deadline, 0, 100);
    // The narrow comparator cannot express it yet: left unarmed.
    assert_eq!(k.armed, None);
    assert_eq!(k.deadlines.len(), 1);
    // The overflow moves the clock into the deadline's epoch and re-arms.
    let _ = k.on_overflow(10);
    assert_eq!(k.ticker.ovf_count, 1);
    assert_eq!(k.armed, Some(50));
    // The compare match wakes the task.
    let _ = k.on_compare(50);
    assert_eq!(k.next_ready(1), Some(0));
    assert_eq!(k.deadlines.len(), 0);
    assert_eq!(k.armed, None);
}

#[test]
fn current_ticks_reconstructs_the_wide_timestamp() {
    let mut k = Kernel::new();
    assert_eq!(k.current_ticks(123), 123);
    let _ = k.on_overflow(0);
    let _ = k.on_overflow(0);
    assert_eq!(k.current_ticks(7), 2 * COUNTER_PERIOD + 7);
}
