use vstd::prelude::*;
use crate::channel::{send_wake_post, Channel};
use crate::executor::Kernel;
use crate::future::{OurFuture, Poll};
use crate::time::{register_post, Timer};

verus! {

/// Length of the debounce window after a press: 100 ms at 32,768 ticks per
/// second.
pub const DEBOUNCE_TICKS: u64 = 3277;

/// Which button a press report comes from.
#[derive(Debug, Copy, Clone, PartialEq, Eq, Structural)]
pub enum ButtonDirection {
    Left,
    Right,
}

/// Where the button task is: watching for a press, waiting out the debounce
/// window, or waiting for the button to be released.
#[derive(Clone, Copy, Debug)]
pub enum ButtonState {
    WaitForPress,
    Debounce(Timer),
    WaitForRelease,
}

/// Example client state machine built on the core: watches a digital input
/// pin (active low) and reports each debounced press into the mailbox. The
/// pin itself is an external collaborator; each poll receives the pin's
/// current level.
pub struct ButtonTask {
    pub state: ButtonState,
    pub direction: ButtonDirection,
}

/// The kernel effect of reporting a press: first the send wakes the
/// channel's registered waiter (if any), then the debounce deadline
/// `now + DEBOUNCE_TICKS` is registered for the button's own task id.
pub open spec fn press_kernel_post(
    waiter: Option<usize>,
    pre: Kernel,
    mid: Kernel,
    post: Kernel,
    now: u64,
    task_id: usize,
    w: Seq<(u64, usize)>,
) -> bool {
    &&& send_wake_post(waiter, pre, mid)
    &&& register_post(mid, post, (now + DEBOUNCE_TICKS) as u64, task_id, now, w)
}

impl ButtonTask {
    /// A debounce timer only ever lives in its registered, waiting state.
    pub open spec fn wf(self) -> bool {
        match self.state {
            ButtonState::Debounce(t) => t.state is Wait,
            _ => true,
        }
    }

    pub fn new(direction: ButtonDirection) -> (t: ButtonTask)
        ensures
            t.state is WaitForPress,
            t.direction == direction,
            t.wf(),
    {
        ButtonTask { state: ButtonState::WaitForPress, direction }
    }

    /// One advance of the button state machine. A press (pin low) is
    /// reported into the mailbox at once and starts the 100 ms debounce
    /// window; pin bouncing within the window neither restarts nor cancels
    /// the window's timer; only its expiry ends the window, into
    /// `WaitForRelease` while the pin still reads low. The task never
    /// completes.
    pub fn poll(
        &mut self,
        channel: &mut Channel<ButtonDirection>,
        kernel: &mut Kernel,
        now: u64,
        pin_low: bool,
        task_id: usize,
    ) -> (r: Poll<()>)
        requires
            old(self).wf(),
            now + DEBOUNCE_TICKS <= u64::MAX,
        ensures
            r is Pending,
            final(self).wf(),
            final(self).direction == old(self).direction,
            old(self).state is WaitForPress && pin_low ==> final(self).state is Debounce
                && final(self).state->Debounce_0.end_time == now + DEBOUNCE_TICKS
                && *final(channel) == old(channel).after_send(Some(old(self).direction))
                && (exists|mid: Kernel, w: Seq<(u64, usize)>|
                    #[trigger] press_kernel_post(
                        old(channel).task_id,
                        *old(kernel),
                        mid,
                        *final(kernel),
                        now,
                        task_id,
                        w,
                    )),
            old(self).state is WaitForPress && !pin_low ==> *final(self) == *old(self)
                && *final(channel) == *old(channel) && *final(kernel) == *old(kernel),
            old(self).state is Debounce && now < old(self).state->Debounce_0.end_time
                ==> *final(self) == *old(self) && *final(channel) == *old(channel)
                && *final(kernel) == *old(kernel),
            old(self).state is Debounce && now >= old(self).state->Debounce_0.end_time
                ==> *final(channel) == *old(channel) && *final(kernel) == *old(kernel)
                && final(self).state == (if pin_low {
                    ButtonState::WaitForRelease
                } else {
                    ButtonState::WaitForPress
                }),
            old(self).state is WaitForRelease ==> *final(channel) == *old(channel)
                && *final(kernel) == *old(kernel) && final(self).state == (if pin_low {
                    ButtonState::WaitForRelease
                } else {
                    ButtonState::WaitForPress
                }),
    {
        match self.state {
            ButtonState::WaitForPress => {
                if pin_low {
                    channel.send(kernel, Some(self.direction));
                    let ghost mid = *kernel;
                    let mut t = Timer::new(now, DEBOUNCE_TICKS);
                    let _ = t.poll(kernel, now, task_id);
                    proof {
                        let w = choose|w: Seq<(u64, usize)>|
                            register_post(mid, *kernel, t.end_time, task_id, now, w);
                        assert(press_kernel_post(
                            old(channel).task_id,
                            *old(kernel),
                            mid,
                            *kernel,
                            now,
                            task_id,
                            w,
                        ));
                    }
                    self.state = ButtonState::Debounce(t);
                }
                Poll::Pending
            },
            ButtonState::Debounce(t0) => {
                let mut t = t0;
                match t.poll(kernel, now, task_id) {
                    Poll::Ready(_) => {
                        if pin_low {
                            self.state = ButtonState::WaitForRelease;
                        } else {
                            self.state = ButtonState::WaitForPress;
                        }
                    },
                    Poll::Pending => {
                        self.state = ButtonState::Debounce(t);
                    },
                }
                Poll::Pending
            },
            ButtonState::WaitForRelease => {
                if !pin_low {
                    self.state = ButtonState::WaitForPress;
                }
                Poll::Pending
            },
        }
    }
}

} // verus!
