use vstd::prelude::*;
use crate::button::ButtonDirection;
use crate::channel::{Channel, Receiver};
use crate::executor::Kernel;
use crate::future::{OurFuture, Poll};
use crate::time::{register_post, Timer};

verus! {

/// Number of LED matrix columns the example drives.
pub const NUM_COLS: usize = 5;

/// Length of the blink period: 500 ms at 32,768 ticks per second.
pub const BLINK_TICKS: u64 = 16384;

/// Where the LED task is: about to toggle the active column, or waiting out
/// the blink period.
#[derive(Clone, Copy, Debug)]
pub enum LedState {
    Toggle,
    Wait(Timer),
}

/// The column the active one moves to on a press report: one to the left or
/// right, wrapping around.
pub open spec fn shifted(active: int, direction: ButtonDirection) -> int {
    match direction {
        ButtonDirection::Left => if active == 0 {
            NUM_COLS - 1
        } else {
            active - 1
        },
        ButtonDirection::Right => (active + 1) % (NUM_COLS as int),
    }
}

/// Example client state machine built on the core: blinks the active LED
/// column and moves it left or right on press reports from the mailbox. The
/// column pins are external collaborators: `cols` holds the level the task
/// has driven each pin to (`true` = high = dark), and the surrounding
/// program mirrors it onto the hardware after each advance.
pub struct LedTask {
    pub cols: Vec<bool>,
    pub active_col: usize,
    pub state: LedState,
    pub receiver: Receiver<ButtonDirection>,
}

/// The kernel effect of beginning a blink period at `now`: the deadline
/// `now + BLINK_TICKS` is registered for the LED task's own task id.
pub open spec fn blink_register_post(
    pre: Kernel,
    post: Kernel,
    now: u64,
    task_id: usize,
    w: Seq<(u64, usize)>,
) -> bool {
    register_post(pre, post, (now + BLINK_TICKS) as u64, task_id, now, w)
}

impl LedTask {
    /// One driven level per column, the active column in range, and a blink
    /// timer only ever in its registered, waiting state.
    pub open spec fn wf(self) -> bool {
        &&& self.cols@.len() == NUM_COLS
        &&& self.active_col < NUM_COLS
        &&& match self.state {
            LedState::Wait(t) => t.state is Wait,
            LedState::Toggle => true,
        }
    }

    pub fn new(receiver: Receiver<ButtonDirection>) -> (t: LedTask)
        ensures
            t.wf(),
            t.cols@ =~= seq![false, false, false, false, false],
            t.active_col == 0,
            t.state is Toggle,
            t.receiver == receiver,
    {
        let mut cols: Vec<bool> = Vec::new();
        cols.push(false);
        cols.push(false);
        cols.push(false);
        cols.push(false);
        cols.push(false);
        LedTask { cols, active_col: 0, state: LedState::Toggle, receiver }
    }

    /// Toggle the active column's pin and begin a fresh blink period.
    fn enter_toggle(&mut self, kernel: &mut Kernel, now: u64, task_id: usize)
        requires
            old(self).wf(),
            now + BLINK_TICKS <= u64::MAX,
        ensures
            final(self).wf(),
            final(self).cols@ == old(self).cols@.update(
                old(self).active_col as int,
                !old(self).cols@[old(self).active_col as int],
            ),
            final(self).active_col == old(self).active_col,
            final(self).receiver == old(self).receiver,
            final(self).state matches LedState::Wait(t) && t.end_time == now + BLINK_TICKS,
            exists|w: Seq<(u64, usize)>|
                #[trigger] blink_register_post(*old(kernel), *final(kernel), now, task_id, w),
    {
        let lit = self.cols[self.active_col];
        self.cols.set(self.active_col, !lit);
        let mut t = Timer::new(now, BLINK_TICKS);
        let _ = t.poll(kernel, now, task_id);
        proof {
            let w = choose|w: Seq<(u64, usize)>|
                register_post(*old(kernel), *kernel, t.end_time, task_id, now, w);
            assert(blink_register_post(*old(kernel), *kernel, now, task_id, w));
        }
        self.state = LedState::Wait(t);
    }

    /// Move the active column one step and drive the new column's pin high
    /// (dark), so that the toggle that follows switches it on.
    fn shift(&mut self, direction: ButtonDirection)
        requires
            old(self).wf(),
        ensures
            final(self).wf(),
            final(self).active_col as int == shifted(old(self).active_col as int, direction),
            final(self).cols@ == old(self).cols@.update(final(self).active_col as int, true),
            final(self).state == old(self).state,
            final(self).receiver == old(self).receiver,
    {
        self.active_col = match direction {
            ButtonDirection::Left => if self.active_col == 0 {
                NUM_COLS - 1
            } else {
                self.active_col - 1
            },
            ButtonDirection::Right => (self.active_col + 1) % NUM_COLS,
        };
        self.cols.set(self.active_col, true);
    }

    /// One advance of the LED state machine: toggle when due, then shift on
    /// a received press report; otherwise wait out the blink period. The
    /// task never completes.
    pub fn poll(
        &mut self,
        channel: &mut Channel<ButtonDirection>,
        kernel: &mut Kernel,
        now: u64,
        task_id: usize,
    ) -> (r: Poll<()>)
        requires
            old(self).wf(),
            now + BLINK_TICKS <= u64::MAX,
        ensures
            r is Pending,
            final(self).wf(),
            final(self).receiver == old(self).receiver,
            final(self).state is Wait,
            *final(channel) == old(channel).after_receive(),
            // mid-period, nothing received: nothing observable happens
            old(self).state is Wait && now < old(self).state->Wait_0.end_time && old(
                channel,
            ).item is None ==> *final(self) == *old(self) && *final(kernel) == *old(kernel),
            // period expired, nothing received: the active column toggles and
            // a fresh period begins
            old(self).state is Wait && now >= old(self).state->Wait_0.end_time && old(
                channel,
            ).item is None ==> final(self).active_col == old(self).active_col && final(self).cols@
                == old(self).cols@.update(
                old(self).active_col as int,
                !old(self).cols@[old(self).active_col as int],
            ) && final(self).state->Wait_0.end_time == now + BLINK_TICKS && (exists|
                w: Seq<(u64, usize)>,
            |
                #[trigger] blink_register_post(*old(kernel), *final(kernel), now, task_id, w)),
            // a press report arrives mid-period: the old column goes dark,
            // the active column shifts, and the new column starts a fresh
            // period with its toggle
            old(self).state is Wait && now < old(self).state->Wait_0.end_time && old(
                channel,
            ).item is Some ==> final(self).active_col as int == shifted(
                old(self).active_col as int,
                old(channel).item->Some_0,
            ) && final(self).cols@ == old(self).cols@.update(old(self).active_col as int, true)
                .update(final(self).active_col as int, false) && final(self).state->Wait_0.end_time
                == now + BLINK_TICKS,
    {
        match self.state {
            LedState::Toggle => {
                self.enter_toggle(kernel, now, task_id);
            },
            LedState::Wait(t0) => {
                let mut t = t0;
                match t.poll(kernel, now, task_id) {
                    Poll::Ready(_) => {
                        self.enter_toggle(kernel, now, task_id);
                    },
                    Poll::Pending => {
                        self.state = LedState::Wait(t);
                    },
                }
            },
        }
        match self.receiver.receive(channel) {
            Some(direction) => {
                self.cols.set(self.active_col, true);
                self.shift(direction);
                self.enter_toggle(kernel, now, task_id);
            },
            None => {},
        }
        Poll::Pending
    }
}

} // verus!
