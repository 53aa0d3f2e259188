use vstd::prelude::*;
use vstd::assert_multisets_equal;
use vstd::multiset::Multiset;
use crate::clock::{COUNTER_PERIOD, wide_ticks};
use crate::executor::{Fault, Kernel};
use crate::future::{OurFuture, Poll};
use crate::heapless_specs::{deadline_min, heap_peek, heap_pop, heap_push, queue_push};

verus! {

/// The overflow epoch a wide timestamp falls in: how many overflows the
/// counter has been through when the clock reads this timestamp.
pub open spec fn epoch_of(t: u64) -> u64 {
    t / COUNTER_PERIOD
}

/// The raw counter value at which the narrow counter reads this timestamp,
/// within its epoch.
pub open spec fn counter_of(t: u64) -> u64 {
    t % COUNTER_PERIOD
}

/// The wide timestamp that `ovf` recorded overflows and raw reading `raw`
/// reconstruct.
pub open spec fn spec_ticks(ovf: u32, raw: u32) -> u64 {
    wide_ticks(ovf as nat, raw as nat) as u64
}

/// The entry's task is woken immediately when examined at `now`: it falls in
/// the current epoch and its counter value is at or within one tick of the
/// current one — too close to arm reliably, or already past.
pub open spec fn wakes_now(e: (u64, usize), now: u64) -> bool {
    epoch_of(e.0) == epoch_of(now) && counter_of(e.0) <= counter_of(now) + 1
}

/// The entry can be armed in the narrow compare register at `now`: it falls
/// in the current epoch, more than one tick ahead of the raw counter.
pub open spec fn armable(e: (u64, usize), now: u64) -> bool {
    epoch_of(e.0) == epoch_of(now) && counter_of(e.0) > counter_of(now) + 1
}

/// The entry lies beyond the current wraparound window: its epoch differs
/// from the current one, so the narrow comparator cannot express it yet; it
/// is reconsidered at the next overflow.
pub open spec fn deferred(e: (u64, usize), now: u64) -> bool {
    epoch_of(e.0) != epoch_of(now)
}

/// Deadlines along the sequence never decrease.
pub open spec fn sorted_by_deadline(s: Seq<(u64, usize)>) -> bool {
    forall|i: int, j: int| 0 <= i <= j < s.len() ==> (#[trigger] s[i]).0 <= (#[trigger] s[j]).0
}

/// `d` is strictly earlier than every registered deadline.
pub open spec fn is_earliest(m: Multiset<(u64, usize)>, d: u64) -> bool {
    forall|x: (u64, usize)| #[trigger] m.count(x) > 0 ==> d < x.0
}

/// The compare-interrupt model is correct for time `now`: armed exactly when
/// the earliest registered deadline is armable, and then for that deadline's
/// counter value; unarmed when nothing is registered or the earliest lies
/// beyond the current epoch.
pub open spec fn armed_ok(k: Kernel, now: u64) -> bool {
    &&& (k.armed matches Some(c) ==> exists|e: (u64, usize)|
        #[trigger] deadline_min(k.dl(), e) && armable(e, now) && counter_of(e.0) == c as u64)
    &&& (k.armed is None ==> k.dl().len() == 0 || exists|e: (u64, usize)|
        #[trigger] deadline_min(k.dl(), e) && deferred(e, now))
}

/// What one run of the arming algorithm does to a kernel whose deadlines,
/// ready queue, fault and ticker started as the first four arguments: every
/// due deadline is popped and its task woken, in non-decreasing deadline
/// order, before everything that remains; then the compare model is armed
/// for what remains. A full ready queue stops the run with a fault.
pub open spec fn wakeup_from(
    dl0: Multiset<(u64, usize)>,
    rq0: Seq<usize>,
    fault0: Option<Fault>,
    ticker0: crate::clock::Ticker,
    post: Kernel,
    now: u64,
    woken: Seq<(u64, usize)>,
) -> bool {
    &&& post.ticker == ticker0
    &&& (fault0 is None && post.fault is None ==> {
        &&& dl0 == post.dl().add(woken.to_multiset())
        &&& post.rq() == rq0 + woken.map_values(|e: (u64, usize)| e.1)
        &&& sorted_by_deadline(woken)
        &&& forall|i: int| 0 <= i < woken.len() ==> wakes_now(#[trigger] woken[i], now)
        &&& forall|i: int, x: (u64, usize)|
            #![trigger woken[i], post.dl().count(x)]
            0 <= i < woken.len() && post.dl().count(x) > 0 ==> woken[i].0 <= x.0
        &&& armed_ok(post, now)
    })
    &&& (fault0 is None && post.fault is Some ==> (post.fault matches Some(
        Fault::ReadyQueueFull(_),
    )) && post.rq().len() >= 4 && rq0.len() + dl0.len() > 4)
}

/// `wakeup_from`, starting from the state `pre`.
pub open spec fn wakeup_post(pre: Kernel, post: Kernel, now: u64, woken: Seq<(u64, usize)>) -> bool {
    wakeup_from(pre.dl(), pre.rq(), pre.fault, pre.ticker, post, now, woken)
}

/// What registering `(deadline, task_id)` at time `now` does to the kernel:
/// the entry is inserted; a full heap is fatal; and when the new deadline is
/// the earliest, the arming algorithm re-runs — which may wake the entry
/// right away if it is already due.
pub open spec fn register_post(
    pre: Kernel,
    post: Kernel,
    deadline: u64,
    task_id: usize,
    now: u64,
    woken: Seq<(u64, usize)>,
) -> bool {
    &&& post.ticker == pre.ticker
    &&& (pre.dl().len() >= 8 ==> post.dl() == pre.dl() && post.rq() == pre.rq() && post.armed
        == pre.armed && post.fault == Some(Fault::DeadlineHeapFull(task_id)) && woken
        == Seq::<(u64, usize)>::empty())
    &&& (pre.dl().len() < 8 && !is_earliest(pre.dl(), deadline) ==> post.dl() == pre.dl().insert(
        (deadline, task_id),
    ) && post.rq() == pre.rq() && post.armed == pre.armed && post.fault == pre.fault && woken
        == Seq::<(u64, usize)>::empty())
    &&& (pre.dl().len() < 8 && is_earliest(pre.dl(), deadline) ==> wakeup_from(
        pre.dl().insert((deadline, task_id)),
        pre.rq(),
        pre.fault,
        pre.ticker,
        post,
        now,
        woken,
    ))
}

impl Kernel {
    /// Reconstruct the wide timestamp from the recorded overflow count and a
    /// raw counter reading. For use where the pair is read without
    /// interference (inside the interrupt handler); task-context reads go
    /// through the retry protocol instead.
    pub fn current_ticks(&self, raw: u32) -> (t: u64)
        ensures
            t == spec_ticks(self.ticker.ovf_count, raw),
    {
        (self.ticker.ovf_count as u64) * COUNTER_PERIOD + (raw as u64) % COUNTER_PERIOD
    }

    /// The hardware arming algorithm, run with the deadline heap exclusively
    /// held: examine the earliest deadline; wake it immediately when it is at
    /// or within one tick of `now` and re-examine the next; arm the compare
    /// model for it when it is further ahead in the current epoch; leave the
    /// hardware unarmed when it lies beyond the current epoch (it is
    /// reconsidered at the next overflow) or when nothing remains.
    pub fn schedule_wakeup(&mut self, now: u64) -> (woken: Ghost<Seq<(u64, usize)>>)
        ensures
            wakeup_post(*old(self), *final(self), now, woken@),
    {
        broadcast use vstd::seq_lib::group_to_multiset_ensures;
        broadcast use vstd::multiset::group_multiset_axioms;

        let ghost mut w: Seq<(u64, usize)> = Seq::empty();
        proof {
            vstd::seq_lib::to_multiset_len(w);
            vstd::multiset::lemma_multiset_empty_len(w.to_multiset());
            assert(w.to_multiset() =~= Multiset::<(u64, usize)>::empty());
            assert(self.rq() =~= old(self).rq() + w.map_values(|e: (u64, usize)| e.1));
        }
        loop
            invariant
                self.ticker == old(self).ticker,
                self.fault == old(self).fault,
                old(self).dl() == self.dl().add(w.to_multiset()),
                self.rq() == old(self).rq() + w.map_values(|e: (u64, usize)| e.1),
                sorted_by_deadline(w),
                forall|i: int| 0 <= i < w.len() ==> wakes_now(#[trigger] w[i], now),
                forall|i: int, x: (u64, usize)|
                    #![trigger w[i], self.dl().count(x)]
                    0 <= i < w.len() && self.dl().count(x) > 0 ==> w[i].0 <= x.0,
            decreases self.dl().len(),
        {
            match heap_peek(&self.deadlines) {
                None => {
                    self.armed = None;
                    return Ghost(w);
                },
                Some(e) => {
                    if e.0 / COUNTER_PERIOD == now / COUNTER_PERIOD {
                        if e.0 % COUNTER_PERIOD > now % COUNTER_PERIOD + 1 {
                            let c: u32 = (e.0 % COUNTER_PERIOD) as u32;
                            self.armed = Some(c);
                            proof {
                                assert(deadline_min(self.dl(), e) && armable(e, now)
                                    && counter_of(e.0) == c as u64);
                            }
                            return Ghost(w);
                        } else {
                            let ghost dl_before: Multiset<(u64, usize)> = self.dl();
                            let popped = heap_pop(&mut self.deadlines);
                            let p = popped.unwrap();
                            proof {
                                assert(dl_before.count(p) > 0);
                                assert(dl_before.count(e) > 0);
                                // Both are minimal, so their deadlines agree and
                                // the popped entry is due as well.
                                assert(p.0 == e.0);
                                assert(Multiset::singleton(p).subset_of(dl_before));
                                assert(self.dl().len() == dl_before.len() - 1);
                            }
                            if !queue_push(&mut self.ready, p.1) {
                                proof {
                                    vstd::seq_lib::to_multiset_len(w);
                                }
                                self.fault = Some(Fault::ReadyQueueFull(p.1));
                                return Ghost(w);
                            }
                            proof {
                                vstd::seq_lib::to_multiset_build(w, p);
                                assert(w.push(p).to_multiset() =~= w.to_multiset().insert(p));
                                assert_multisets_equal!(
                                    self.dl().add(w.push(p).to_multiset()),
                                    dl_before.add(w.to_multiset()),
                                    v => {
                                        assert(w.push(p).to_multiset().count(v)
                                            == w.to_multiset().insert(p).count(v));
                                        assert(self.dl().count(v) == dl_before.remove(p).count(v));
                                    }
                                );
                                assert(self.rq() =~= old(self).rq() + w.push(p).map_values(
                                    |x: (u64, usize)| x.1,
                                ));
                                assert forall|i: int| 0 <= i < w.len() implies (#[trigger] w[i]).0
                                    <= p.0 by {
                                    assert(dl_before.count(p) > 0);
                                }
                                assert(sorted_by_deadline(w.push(p)));
                                assert(wakes_now(p, now));
                                assert forall|i: int, x: (u64, usize)|
                                    #![trigger w.push(p)[i], self.dl().count(x)]
                                    0 <= i < w.push(p).len() && self.dl().count(x)
                                    > 0 implies w.push(p)[i].0 <= x.0 by {
                                    assert(dl_before.count(x) > 0);
                                }
                                w = w.push(p);
                            }
                        }
                    } else {
                        self.armed = None;
                        proof {
                            assert(deadline_min(self.dl(), e) && deferred(e, now));
                        }
                        return Ghost(w);
                    }
                },
            }
        }
    }

    /// Register `(deadline, task_id)` in the deadline heap. A full heap is
    /// fatal: a dropped deadline means the owning task may never wake, so the
    /// fault is recorded and the system halts. If the new deadline is now the
    /// earliest, the compare hardware is reprogrammed, which may instead wake
    /// the task immediately when the deadline is already due.
    pub fn register_deadline(&mut self, deadline: u64, task_id: usize, now: u64) -> (woken: Ghost<
        Seq<(u64, usize)>,
    >)
        ensures
            register_post(*old(self), *final(self), deadline, task_id, now, woken@),
    {
        broadcast use vstd::multiset::group_multiset_axioms;

        let peeked = heap_peek(&self.deadlines);
        let earliest = match peeked {
            None => true,
            Some(e) => deadline < e.0,
        };
        proof {
            match peeked {
                None => {
                    assert forall|x: (u64, usize)| #[trigger] self.dl().count(x)
                        > 0 implies deadline < x.0 by {
                        assert(self.dl().count(x) <= self.dl().len());
                    }
                },
                Some(e) => {
                    assert(self.dl().count(e) > 0);
                    if earliest {
                        assert forall|x: (u64, usize)| #[trigger] self.dl().count(x)
                            > 0 implies deadline < x.0 by {};
                    }
                },
            }
            assert(earliest <==> is_earliest(self.dl(), deadline));
        }
        if !heap_push(&mut self.deadlines, (deadline, task_id)) {
            self.fault = Some(Fault::DeadlineHeapFull(task_id));
            return Ghost(Seq::empty());
        }
        if earliest {
            let ghost mid = *self;
            let w = self.schedule_wakeup(now);
            proof {
                assert(wakeup_from(mid.dl(), mid.rq(), mid.fault, mid.ticker, *self, now, w@));
            }
            w
        } else {
            Ghost(Seq::empty())
        }
    }

    /// The overflow half of the timer interrupt handler: record the overflow,
    /// then re-run the arming algorithm, so that deadlines deferred past the
    /// previous wraparound window are reconsidered.
    pub fn on_overflow(&mut self, raw: u32) -> (woken: Ghost<Seq<(u64, usize)>>)
        requires
            old(self).ticker.ovf_count < u32::MAX,
        ensures
            final(self).ticker.ovf_count == old(self).ticker.ovf_count + 1,
            wakeup_from(
                old(self).dl(),
                old(self).rq(),
                old(self).fault,
                final(self).ticker,
                *final(self),
                spec_ticks(final(self).ticker.ovf_count, raw),
                woken@,
            ),
    {
        self.ticker.record_overflow();
        let now = self.current_ticks(raw);
        self.schedule_wakeup(now)
    }

    /// The compare half of the timer interrupt handler: pop every deadline
    /// that has been reached, wake each owning task, and re-arm for whatever
    /// remains.
    pub fn on_compare(&mut self, raw: u32) -> (woken: Ghost<Seq<(u64, usize)>>)
        ensures
            wakeup_post(*old(self), *final(self), spec_ticks(old(self).ticker.ovf_count, raw), woken@),
    {
        let now = self.current_ticks(raw);
        self.schedule_wakeup(now)
    }
}

/// Letting time advance past every registered deadline drains the registry
/// completely: when the arming algorithm runs at a time `now` at which every
/// registered entry is due, it wakes exactly the registered entries — each
/// task id appended to the ready queue, in non-decreasing deadline order —
/// and leaves the registry empty.
pub proof fn lemma_drain_all(pre: Kernel, post: Kernel, now: u64, woken: Seq<(u64, usize)>)
    requires
        wakeup_post(pre, post, now, woken),
        pre.fault is None,
        post.fault is None,
        forall|x: (u64, usize)| #[trigger] pre.dl().count(x) > 0 ==> wakes_now(x, now),
    ensures
        post.dl().len() == 0,
        woken.to_multiset() == pre.dl(),
        woken.len() == pre.dl().len(),
        post.rq() == pre.rq() + woken.map_values(|e: (u64, usize)| e.1),
        sorted_by_deadline(woken),
{
    broadcast use vstd::multiset::group_multiset_axioms;

    if post.dl().len() > 0 {
        match post.armed {
            Some(c) => {
                let e = choose|e: (u64, usize)|
                    #[trigger] deadline_min(post.dl(), e) && armable(e, now) && counter_of(e.0)
                        == c as u64;
                assert(pre.dl().count(e) >= post.dl().count(e));
                assert(wakes_now(e, now) && armable(e, now));
                assert(false);
            },
            None => {
                let e = choose|e: (u64, usize)|
                    #[trigger] deadline_min(post.dl(), e) && deferred(e, now);
                assert(pre.dl().count(e) >= post.dl().count(e));
                assert(wakes_now(e, now) && deferred(e, now));
                assert(false);
            },
        }
    }
    vstd::multiset::lemma_multiset_empty_len(post.dl());
    assert(woken.to_multiset() =~= pre.dl());
    vstd::seq_lib::to_multiset_len(woken);
}

/// A deadline registered as the new earliest whose target counter value is
/// at or within one tick of the current one wakes its owning task right away
/// rather than arming the compare hardware: the entry is among the woken
/// ones, the task id lands on the ready queue, and whatever the hardware is
/// armed for afterwards is not this entry's counter value. (Entries left
/// over from earlier epochs would defer the examination; the premise rules
/// them out.)
pub proof fn lemma_due_deadline_wakes_immediately(
    pre: Kernel,
    post: Kernel,
    deadline: u64,
    task_id: usize,
    now: u64,
    woken: Seq<(u64, usize)>,
)
    requires
        register_post(pre, post, deadline, task_id, now, woken),
        pre.fault is None,
        post.fault is None,
        pre.dl().len() < 8,
        is_earliest(pre.dl(), deadline),
        wakes_now((deadline, task_id), now),
        forall|x: (u64, usize)| #[trigger] pre.dl().count(x) > 0 ==> epoch_of(x.0) >= epoch_of(
            now,
        ),
    ensures
        woken.to_multiset().count((deadline, task_id)) > 0,
        post.rq().contains(task_id),
        post.armed matches Some(c) ==> c as u64 != counter_of(deadline),
{
    broadcast use vstd::multiset::group_multiset_axioms;

    let e = (deadline, task_id);
    let dl0 = pre.dl().insert(e);
    assert(dl0 == post.dl().add(woken.to_multiset()));
    if woken.to_multiset().count(e) == 0 {
        assert(post.dl().count(e) == dl0.count(e));
        assert(post.dl().count(e) > 0);
        match post.armed {
            Some(c) => {
                let m = choose|m: (u64, usize)|
                    #[trigger] deadline_min(post.dl(), m) && armable(m, now) && counter_of(m.0)
                        == c as u64;
                assert(m.0 <= e.0);
                assert(m.0 == epoch_of(m.0) * COUNTER_PERIOD + counter_of(m.0));
                assert(e.0 == epoch_of(e.0) * COUNTER_PERIOD + counter_of(e.0));
                assert(false);
            },
            None => {
                assert(post.dl().len() > 0);
                let m = choose|m: (u64, usize)|
                    #[trigger] deadline_min(post.dl(), m) && deferred(m, now);
                assert(m.0 <= e.0);
                // Where does `m` come from? It is in `dl0`, so it is the new
                // entry itself (in epoch, contradiction) or a pre-registered
                // one, whose epoch is at least the current one; being
                // deferred it is strictly later, putting it past the whole
                // current epoch — yet its deadline is at most `e.0`, which
                // lies inside the current epoch.
                assert(dl0.count(m) > 0);
                if m != e {
                    assert(pre.dl().count(m) > 0);
                    assert(epoch_of(m.0) > epoch_of(now));
                    assert(m.0 == epoch_of(m.0) * COUNTER_PERIOD + counter_of(m.0));
                    assert(e.0 == epoch_of(e.0) * COUNTER_PERIOD + counter_of(e.0));
                    assert(epoch_of(m.0) * COUNTER_PERIOD >= (epoch_of(now) + 1) * COUNTER_PERIOD);
                }
                assert(false);
            },
        }
    }
    assert(woken.to_multiset().count(e) > 0);
    vstd::seq_lib::to_multiset_contains(woken, e);
    let i = choose|i: int| 0 <= i < woken.len() && woken[i] == e;
    assert(post.rq() == pre.rq() + woken.map_values(|x: (u64, usize)| x.1));
    assert(post.rq()[pre.rq().len() + i] == task_id);
    match post.armed {
        Some(c) => {
            let m = choose|m: (u64, usize)|
                #[trigger] deadline_min(post.dl(), m) && armable(m, now) && counter_of(m.0)
                    == c as u64;
            assert(counter_of(m.0) > counter_of(now) + 1);
            assert(counter_of(e.0) <= counter_of(now) + 1);
        },
        None => {},
    }
}

/// Where a timer is in its life: not yet registered, or registered and
/// waiting for its deadline to pass.
#[derive(Clone, Copy, Debug, PartialEq, Eq, Structural)]
pub enum TimerState {
    Init,
    Wait,
}

/// A one-shot timer: constructed from a duration, it captures the absolute
/// wake time `now + duration`; used as a task it yields `Pending` until the
/// deadline has passed, then `Ready`.
#[derive(Clone, Copy, Debug)]
pub struct Timer {
    pub end_time: u64,
    pub state: TimerState,
}

impl Timer {
    /// A timer constructed at `now` for `duration` ticks wakes at the
    /// absolute time `now + duration`.
    pub fn new(now: u64, duration: u64) -> (t: Timer)
        requires
            now + duration <= u64::MAX,
        ensures
            t.end_time == now + duration,
            t.state is Init,
    {
        Timer { end_time: now + duration, state: TimerState::Init }
    }

    /// Registration places the deadline and its task id into the kernel's
    /// deadline heap, reprogramming the compare hardware when the new
    /// deadline is the earliest.
    pub fn register(&self, kernel: &mut Kernel, task_id: usize, now: u64) -> (woken: Ghost<
        Seq<(u64, usize)>,
    >)
        ensures
            register_post(*old(kernel), *final(kernel), self.end_time, task_id, now, woken@),
    {
        kernel.register_deadline(self.end_time, task_id, now)
    }
}

impl OurFuture for Timer {
    type Output = ();

    /// On the first poll the timer registers its deadline and suspends; on
    /// every later poll it compares `now` against the deadline and reports
    /// `Ready` exactly when the deadline has passed — never before.
    fn poll(&mut self, kernel: &mut Kernel, now: u64, task_id: usize) -> (r: Poll<()>)
        ensures
            old(self).state is Wait ==> *final(self) == *old(self) && *final(kernel) == *old(kernel)
                && (r is Ready <==> now >= old(self).end_time),
            old(self).state is Init ==> r is Pending && final(self).end_time == old(
                self,
            ).end_time && final(self).state is Wait && (exists|w: Seq<(u64, usize)>|
                register_post(*old(kernel), *final(kernel), old(self).end_time, task_id, now, w)),
            r is Ready ==> old(self).state is Wait && now >= old(self).end_time,
    {
        match self.state {
            TimerState::Init => {
                let w = self.register(kernel, task_id, now);
                proof {
                    assert(register_post(*old(kernel), *kernel, self.end_time, task_id, now, w@));
                }
                self.state = TimerState::Wait;
                Poll::Pending
            },
            TimerState::Wait => {
                if now >= self.end_time {
                    Poll::Ready(())
                } else {
                    Poll::Pending
                }
            },
        }
    }
}

} // verus!
