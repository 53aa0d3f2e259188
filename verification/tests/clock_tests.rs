use coop_kernel::clock::{Ticker, COUNTER_PERIOD};

#[test]
fn stable_sample_reconstructs_ticks() {
    assert_eq!(Ticker::now_from_sample(0, 100, 0), Some(100));
}

#[test]
fn stable_sample_combines_overflows_and_counter() {
    assert_eq!(Ticker::now_from_sample(2, 5, 2), Some(2 * COUNTER_PERIOD + 5));
}

#[test]
fn torn_sample_is_discarded() {
    assert_eq!(Ticker::now_from_sample(1, 0xFF_FFFF, 2), None);
}

#[test]
fn samples_across_an_overflow_never_go_backwards() {
    // Just before the overflow, and just after its interrupt ran.
    let before = Ticker::now_from_sample(0, 0xFF_FFFF, 0).unwrap();
    let after = Ticker::now_from_sample(1, 0, 1).unwrap();
    assert_eq!(after, before + 1);
    assert!(after >= before);
}

#[test]
fn overflow_handler_records_each_overflow() {
    let mut t = Ticker::new();
    assert_eq!(t.ovf_count, 0);
    t.record_overflow();
    t.record_overflow();
    assert_eq!(t.ovf_count, 2);
}
