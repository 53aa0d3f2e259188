use vstd::prelude::*;
use vstd::multiset::Multiset;
use crate::clock::Ticker;
use crate::heapless_specs::{
    DeadlineHeap, TaskQueue, heap_entries, heap_new, queue_entries, queue_new, queue_pop,
    queue_push,
};

verus! {

/// An unrecoverable capacity failure. A dropped wake or a dropped deadline
/// leaves a task permanently unreachable, which is judged strictly worse
/// than a visible halt, so the kernel records which task was affected and
/// the surrounding program is expected to halt.
#[derive(Clone, Copy, Debug, PartialEq, Eq, Structural)]
pub enum Fault {
    /// A wake for the given task id found no free slot in the ready queue.
    ReadyQueueFull(usize),
    /// A deadline for the given task id found no free slot in the heap.
    DeadlineHeapFull(usize),
}

/// The kernel context: all state that interrupt handlers and tasks share.
/// Instead of ambient globals, one explicit value of this type is threaded
/// through every component; the surrounding program guards it with its
/// critical-section discipline.
pub struct Kernel {
    /// Overflow bookkeeping for the monotonic clock.
    pub ticker: Ticker,
    /// Registered (wake time, task id) pairs, earliest on top.
    pub deadlines: DeadlineHeap,
    /// Task ids woken and waiting to be run, oldest first.
    pub ready: TaskQueue,
    /// Model of the hardware compare interrupt: `Some(c)` when it is armed
    /// for raw counter value `c`, `None` when it is disarmed. The hardware
    /// is kept in step with this field by whoever owns the device.
    pub armed: Option<u32>,
    /// The first capacity failure, if one has happened.
    pub fault: Option<Fault>,
}

impl Kernel {
    /// The registered deadlines.
    pub open spec fn dl(self) -> Multiset<(u64, usize)> {
        heap_entries(self.deadlines)
    }

    /// The task ids waiting to run, oldest first.
    pub open spec fn rq(self) -> Seq<usize> {
        queue_entries(self.ready)
    }

    pub fn new() -> (k: Kernel)
        ensures
            k.dl() == Multiset::<(u64, usize)>::empty(),
            k.rq() == Seq::<usize>::empty(),
            k.ticker.ovf_count == 0,
            k.armed is None,
            k.fault is None,
    {
        Kernel {
            ticker: Ticker::new(),
            deadlines: heap_new(),
            ready: queue_new(),
            armed: None,
            fault: None,
        }
    }

    /// Wake a task: push its id onto the ready queue. Callable from interrupt
    /// or task context. Waking an already-woken task is safe but consumes a
    /// queue slot; a full queue is fatal and is recorded as a fault.
    pub fn wake_task(&mut self, task_id: usize)
        ensures
            final(self).ticker == old(self).ticker,
            final(self).deadlines == old(self).deadlines,
            final(self).armed == old(self).armed,
            old(self).rq().len() < 4 ==> final(self).rq() == old(self).rq().push(task_id)
                && final(self).fault == old(self).fault,
            old(self).rq().len() >= 4 ==> final(self).rq() == old(self).rq() && final(self).fault
                == Some(Fault::ReadyQueueFull(task_id)),
    {
        if !queue_push(&mut self.ready, task_id) {
            self.fault = Some(Fault::ReadyQueueFull(task_id));
        }
    }

    /// Pop the next runnable task id. Ids at or beyond `n_tasks` indicate a
    /// corrupted wake; they are skipped (recoverable), never run.
    pub fn next_ready(&mut self, n_tasks: usize) -> (r: Option<usize>)
        ensures
            final(self).ticker == old(self).ticker,
            final(self).deadlines == old(self).deadlines,
            final(self).armed == old(self).armed,
            final(self).fault == old(self).fault,
            r matches Some(id) ==> id < n_tasks && exists|j: int|
                0 <= j < old(self).rq().len() && old(self).rq()[j] == id && final(self).rq()
                    == old(self).rq().skip(j + 1) && (forall|i: int|
                    0 <= i < j ==> #[trigger] old(self).rq()[i] >= n_tasks),
            r is None ==> final(self).rq() == Seq::<usize>::empty() && (forall|i: int|
                0 <= i < old(self).rq().len() ==> #[trigger] old(self).rq()[i] >= n_tasks),
    {
        let ghost mut j: int = 0;
        loop
            invariant
                0 <= j <= old(self).rq().len(),
                self.rq() == old(self).rq().skip(j),
                forall|i: int| 0 <= i < j ==> #[trigger] old(self).rq()[i] >= n_tasks,
                self.ticker == old(self).ticker,
                self.deadlines == old(self).deadlines,
                self.armed == old(self).armed,
                self.fault == old(self).fault,
            decreases self.rq().len(),
        {
            match queue_pop(&mut self.ready) {
                None => {
                    assert(old(self).rq().skip(j) =~= Seq::<usize>::empty());
                    return None;
                },
                Some(id) => {
                    proof {
                        assert(old(self).rq().skip(j)[0] == old(self).rq()[j]);
                        assert(old(self).rq().skip(j).drop_first() =~= old(self).rq().skip(j + 1));
                    }
                    if id < n_tasks {
                        return Some(id);
                    }
                    proof {
                        j = j + 1;
                    }
                },
            }
        }
    }

    /// At startup every task id is pushed once onto the ready queue, in
    /// registration order, so each task gets one initial advance.
    pub fn start(&mut self, n_tasks: usize)
        requires
            n_tasks <= 4,
            old(self).rq().len() == 0,
        ensures
            final(self).ticker == old(self).ticker,
            final(self).deadlines == old(self).deadlines,
            final(self).armed == old(self).armed,
            final(self).fault == old(self).fault,
            final(self).rq() == Seq::new(n_tasks as nat, |i: int| i as usize),
    {
        let mut id: usize = 0;
        while id < n_tasks
            invariant
                id <= n_tasks,
                n_tasks <= 4,
                self.rq() == Seq::new(id as nat, |i: int| i as usize),
                self.ticker == old(self).ticker,
                self.deadlines == old(self).deadlines,
                self.armed == old(self).armed,
                self.fault == old(self).fault,
            decreases n_tasks - id,
        {
            self.wake_task(id);
            proof {
                assert(self.rq() =~= Seq::new((id + 1) as nat, |i: int| i as usize));
            }
            id = id + 1;
        }
    }
}

} // verus!
