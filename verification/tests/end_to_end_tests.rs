use coop_kernel::button::{ButtonDirection, ButtonState, ButtonTask, DEBOUNCE_TICKS};
use coop_kernel::channel::Channel;
use coop_kernel::executor::Kernel;
use coop_kernel::future::Poll;
use coop_kernel::led::LedTask;

#[test]
fn one_send_is_observed_exactly_once_by_the_registered_receiver() {
    let mut ch: Channel<u32> = Channel::new();
    let mut k = Kernel::new();
    let sender = ch.get_sender();
    let mut receiver = ch.get_receiver();

    // Task 0 is the receiver, task 1 the sender.
    k.start(2);
    let mut observations: Vec<u32> = Vec::new();

    // Run until idle: the receiver registers, the sender sends once, and
    // the send's wake lets the receiver observe the item.
    while let Some(id) = k.next_ready(2) {
        match id {
            0 => {
                if let Poll::Ready(v) = receiver.poll(&mut ch, &mut k, 0) {
                    observations.push(v);
                }
            },
            1 => {
                sender.send(&mut ch, &mut k, Some(42));
            },
            _ => unreachable!(),
        }
    }
    assert_eq!(observations, vec![42]);

    // A spurious extra wake observes nothing more: exactly once, not twice.
    k.wake_task(0);
    while let Some(id) = k.next_ready(2) {
        if id == 0 {
            if let Poll::Ready(v) = receiver.poll(&mut ch, &mut k, 0) {
                observations.push(v);
            }
        }
    }
    assert_eq!(observations, vec![42]);
}

#[test]
fn button_debounce_ignores_bouncing_and_ends_on_expiry() {
    let mut ch: Channel<ButtonDirection> = Channel::new();
    let mut k = Kernel::new();
    let mut btn = ButtonTask::new(ButtonDirection::Left);

    // Press observed at t = 1000: reported at once, debounce window starts.
    assert!(matches!(btn.poll(&mut ch, &mut k, 1000, true, 0), Poll::Pending));
    assert!(matches!(btn.state, ButtonState::Debounce(_)));
    assert_eq!(ch.receive(), Some(ButtonDirection::Left));
    let armed_for = k.armed;
    assert_eq!(armed_for, Some((1000 + DEBOUNCE_TICKS) as u32));

    // Bouncing inside the window: neither a restart nor a cancel.
    let _ = btn.poll(&mut ch, &mut k, 1500, false, 0);
    assert!(matches!(btn.state, ButtonState::Debounce(_)));
    assert_eq!(k.armed, armed_for);
    let _ = btn.poll(&mut ch, &mut k, 2000, true, 0);
    assert!(matches!(btn.state, ButtonState::Debounce(_)));
    assert_eq!(k.armed, armed_for);
    // No second report was sent.
    assert_eq!(ch.receive(), None);

    // Expiry with the button still held: wait for release.
    let _ = btn.poll(&mut ch, &mut k, 1000 + DEBOUNCE_TICKS, true, 0);
    assert!(matches!(btn.state, ButtonState::WaitForRelease));

    // Release ends the cycle.
    let _ = btn.poll(&mut ch, &mut k, 1000 + DEBOUNCE_TICKS + 100, false, 0);
    assert!(matches!(btn.state, ButtonState::WaitForPress));
}

#[test]
fn led_toggles_on_its_period_and_shifts_on_a_press_report() {
    let mut ch: Channel<ButtonDirection> = Channel::new();
    let mut k = Kernel::new();
    let mut led = LedTask::new(ch.get_receiver());

    // First advance: the active column's pin toggles and a period starts.
    assert!(matches!(led.poll(&mut ch, &mut k, 0, 0), Poll::Pending));
    assert_eq!(led.cols, vec![true, false, false, false, false]);
    assert_eq!(led.active_col, 0);

    // Mid-period with nothing received: nothing changes.
    let cols_before = led.cols.clone();
    let _ = led.poll(&mut ch, &mut k, 100, 0);
    assert_eq!(led.cols, cols_before);

    // A press report shifts the active column right; the old column goes
    // dark and the new one starts toggled.
    ch.get_sender().send(&mut ch, &mut k, Some(ButtonDirection::Right));
    let _ = led.poll(&mut ch, &mut k, 200, 0);
    assert_eq!(led.active_col, 1);
    assert_eq!(led.cols, vec![true, false, false, false, false]);

    // And left from column 0 wraps around to the last column.
    ch.get_sender().send(&mut ch, &mut k, Some(ButtonDirection::Left));
    let _ = led.poll(&mut ch, &mut k, 300, 0);
    assert_eq!(led.active_col, 0);
    ch.get_sender().send(&mut ch, &mut k, Some(ButtonDirection::Left));
    let _ = led.poll(&mut ch, &mut k, 400, 0);
    assert_eq!(led.active_col, 4);
}
