use vstd::prelude::*;
use crate::executor::Kernel;

verus! {

/// Outcome of advancing a task by one step: `Pending` means "I have made what
/// progress I can; do not call me again until something wakes my task id",
/// `Ready` is terminal completion with a result.
pub enum Poll<T> {
    Pending,
    Ready(T),
}

/// A suspendable unit of work. `poll` advances the task by one step: it
/// either completes with `Ready`, or returns `Pending` after re-registering
/// interest (a deadline, a mailbox slot) under its own `task_id`, so that a
/// later wake re-enqueues it. `now` is the current wide timestamp.
pub trait OurFuture {
    type Output;

    fn poll(&mut self, kernel: &mut Kernel, now: u64, task_id: usize) -> Poll<Self::Output>;
}

} // verus!
