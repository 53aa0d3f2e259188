use vstd::prelude::*;
use core::marker::PhantomData;
use crate::executor::{Fault, Kernel};
use crate::future::Poll;

verus! {

/// What a send does to the kernel: with no waiter registered, nothing; with
/// waiter `id` registered, `id` is woken — pushed onto the ready queue, or,
/// when the queue is full, recorded as the fatal fault.
pub open spec fn send_wake_post(waiter: Option<usize>, pre: Kernel, post: Kernel) -> bool {
    &&& post.ticker == pre.ticker
    &&& post.deadlines == pre.deadlines
    &&& post.armed == pre.armed
    &&& (waiter is None ==> post == pre)
    &&& (waiter matches Some(id) ==> (pre.rq().len() < 4 ==> post.rq() == pre.rq().push(id)
        && post.fault == pre.fault) && (pre.rq().len() >= 4 ==> post.rq() == pre.rq() && post.fault
        == Some(Fault::ReadyQueueFull(id))))
}

/// A single-slot mailbox: holds at most one value, jointly used by a sender
/// end and a receiver end, plus at most one task id recorded as waiting for
/// the slot to fill.
pub struct Channel<T> {
    pub item: Option<T>,
    pub task_id: Option<usize>,
}

impl<T> Channel<T> {
    /// The channel after a send: the slot is overwritten, the registered
    /// waiter is kept.
    pub open spec fn after_send(self, item: Option<T>) -> Channel<T> {
        Channel { item, task_id: self.task_id }
    }

    /// The channel after a receive: the slot is empty, the registered waiter
    /// is kept.
    pub open spec fn after_receive(self) -> Channel<T> {
        Channel { item: None, task_id: self.task_id }
    }

    /// What a receive yields: whatever the slot holds.
    pub open spec fn received(self) -> Option<T> {
        self.item
    }

    pub fn new() -> (c: Channel<T>)
        ensures
            c.item is None,
            c.task_id is None,
    {
        Channel { item: None, task_id: None }
    }

    pub fn get_sender(&self) -> (s: Sender<T>) {
        Sender { marker: PhantomData }
    }

    pub fn get_receiver(&self) -> (r: Receiver<T>)
        ensures
            r.state is Init,
    {
        Receiver { state: ReceiverState::Init, marker: PhantomData }
    }

    /// Overwrite the slot unconditionally and, if a receiver is registered as
    /// waiting, wake it. Always succeeds; the only failure mode is the fatal
    /// full-ready-queue fault of the wake itself.
    pub fn send(&mut self, kernel: &mut Kernel, item: Option<T>)
        ensures
            *final(self) == old(self).after_send(item),
            send_wake_post(old(self).task_id, *old(kernel), *final(kernel)),
    {
        self.item = item;
        if let Some(id) = self.task_id {
            kernel.wake_task(id);
        }
    }

    /// Take and clear the slot, returning the item if one was present.
    pub fn receive(&mut self) -> (r: Option<T>)
        ensures
            r == old(self).received(),
            *final(self) == old(self).after_receive(),
    {
        self.item.take()
    }

    /// Record `task_id` as the mailbox's sole waiting party; a second
    /// registration overwrites the first (last registration wins).
    pub fn register(&mut self, task_id: usize)
        ensures
            final(self).item == old(self).item,
            final(self).task_id == Some(task_id),
    {
        self.task_id = Some(task_id);
    }
}

/// The producer end of a channel: it only borrows the channel per call, so
/// the channel outlives both ends.
pub struct Sender<T> {
    pub marker: PhantomData<T>,
}

impl<T> Sender<T> {
    /// Send a value: overwrite the slot and wake the registered receiver, if
    /// any.
    pub fn send(&self, channel: &mut Channel<T>, kernel: &mut Kernel, item: Option<T>)
        ensures
            *final(channel) == old(channel).after_send(item),
            send_wake_post(old(channel).task_id, *old(kernel), *final(kernel)),
    {
        channel.send(kernel, item)
    }
}

/// Where a task-facing receiver is in its protocol: not yet registered, or
/// registered and waiting for the slot to fill.
#[derive(Clone, Copy, Debug, PartialEq, Eq, Structural)]
pub enum ReceiverState {
    Init,
    Wait,
}

/// The consumer end of a channel.
pub struct Receiver<T> {
    pub state: ReceiverState,
    pub marker: PhantomData<T>,
}

impl<T> Receiver<T> {
    /// Non-suspending accessor: take and clear the slot.
    pub fn receive(&self, channel: &mut Channel<T>) -> (r: Option<T>)
        ensures
            r == old(channel).received(),
            *final(channel) == old(channel).after_receive(),
    {
        channel.receive()
    }

    /// Task-facing receive: the first poll registers the caller's task id as
    /// the mailbox's sole waiting party and suspends; every later poll takes
    /// the slot and completes exactly when it was filled.
    pub fn poll(&mut self, channel: &mut Channel<T>, kernel: &mut Kernel, task_id: usize) -> (r:
        Poll<T>)
        ensures
            old(self).state is Init ==> r is Pending && final(self).state is Wait && *final(channel)
                == (Channel { item: old(channel).item, task_id: Some(task_id) }) && *final(kernel)
                == *old(kernel),
            old(self).state is Wait ==> *final(self) == *old(self) && *final(kernel) == *old(kernel)
                && *final(channel) == old(channel).after_receive() && (match old(channel).item {
                Some(x) => r == Poll::Ready(x),
                None => r is Pending,
            }),
    {
        match self.state {
            ReceiverState::Init => {
                channel.register(task_id);
                self.state = ReceiverState::Wait;
                Poll::Pending
            },
            ReceiverState::Wait => {
                match channel.receive() {
                    Some(x) => Poll::Ready(x),
                    None => Poll::Pending,
                }
            },
        }
    }
}

/// A send followed immediately by a receive, with no access in between,
/// yields exactly the sent item; a second receive with nothing sent in
/// between yields nothing.
pub proof fn lemma_send_then_receive<T>(c: Channel<T>, item: Option<T>)
    ensures
        c.after_send(item).received() == item,
        c.after_send(item).after_receive().received() == Option::<T>::None,
{
}

/// Polling an empty mailbox observes no change: a waiting receiver may poll
/// any number of times while nothing has been sent, and the channel stays as
/// it was, so the first poll after a send still finds the item.
pub proof fn lemma_poll_empty_is_noop<T>(c: Channel<T>)
    requires
        c.item is None,
    ensures
        c.after_receive() == c,
{
}

} // verus!
