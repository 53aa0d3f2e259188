use vstd::prelude::*;

verus! {

/// Number of distinct values of the narrow hardware counter: it counts
/// `0 ..= COUNTER_PERIOD - 1` and then wraps to zero, raising an overflow
/// interrupt.
pub const COUNTER_PERIOD: u64 = 0x100_0000;

/// The wide timestamp reconstructed from `ovf` recorded overflows and a raw
/// counter reading, the raw value reduced into the counter's range.
pub open spec fn wide_ticks(ovf: nat, raw: nat) -> nat {
    ovf * (COUNTER_PERIOD as nat) + raw % (COUNTER_PERIOD as nat)
}

/// The hardware clock at one instant: how many overflows have been recorded
/// so far, and the raw counter value.
pub struct ClockState {
    pub ovf: nat,
    pub raw: nat,
}

/// The raw counter never leaves the range the hardware gives it.
pub open spec fn clock_inv(c: ClockState) -> bool {
    c.raw < COUNTER_PERIOD as nat
}

/// The true wide time of one clock instant.
pub open spec fn clock_ticks(c: ClockState) -> nat {
    c.ovf * (COUNTER_PERIOD as nat) + c.raw
}

/// One step of the hardware clock: it stays put, advances the raw counter by
/// one, or overflows — the raw counter wraps to zero while the overflow
/// interrupt records one more overflow.
pub open spec fn clock_step(pre: ClockState, post: ClockState) -> bool {
    ||| post == pre
    ||| (pre.raw + 1 < COUNTER_PERIOD as nat && post == (ClockState {
        ovf: pre.ovf,
        raw: pre.raw + 1,
    }))
    ||| (pre.raw + 1 == COUNTER_PERIOD as nat && post == (ClockState { ovf: pre.ovf + 1, raw: 0 }))
}

/// A possible history of the clock: every instant well formed, consecutive
/// instants related by one step.
pub open spec fn clock_trace(t: Seq<ClockState>) -> bool {
    &&& forall|i: int| 0 <= i < t.len() ==> clock_inv(#[trigger] t[i])
    &&& forall|i: int| 0 <= i + 1 < t.len() ==> #[trigger] clock_step(t[i], t[i + 1])
}

/// One step never decreases the wide time or the overflow count.
pub proof fn lemma_ticks_step(pre: ClockState, post: ClockState)
    requires
        clock_step(pre, post),
    ensures
        clock_ticks(pre) <= clock_ticks(post),
        pre.ovf <= post.ovf,
{
}

/// Along any history, the wide time and the overflow count never decrease.
pub proof fn lemma_ticks_monotonic(t: Seq<ClockState>, i: int, j: int)
    requires
        clock_trace(t),
        0 <= i <= j < t.len(),
    ensures
        clock_ticks(t[i]) <= clock_ticks(t[j]),
        t[i].ovf <= t[j].ovf,
    decreases j - i,
{
    if i < j {
        lemma_ticks_monotonic(t, i, j - 1);
        assert(clock_step(t[j - 1], t[(j - 1) + 1]));
        lemma_ticks_step(t[j - 1], t[j]);
    }
}

/// A stable sample is exact: when the overflow count reads the same before
/// and after the raw counter is read, no overflow ran in between, so the
/// reconstructed timestamp is the true wide time of the instant the raw
/// counter was read at.
pub proof fn lemma_stable_sample_is_exact(t: Seq<ClockState>, i1: int, i2: int, i3: int)
    requires
        clock_trace(t),
        0 <= i1 <= i2 <= i3 < t.len(),
        t[i1].ovf == t[i3].ovf,
    ensures
        wide_ticks(t[i1].ovf, t[i2].raw) == clock_ticks(t[i2]),
{
    lemma_ticks_monotonic(t, i1, i2);
    lemma_ticks_monotonic(t, i2, i3);
}

/// For all interleavings of raw-counter advances and overflow events, stable
/// samples taken at increasing real times reconstruct non-decreasing wide
/// timestamps, including samples that straddle an overflow.
pub proof fn lemma_now_monotonic(
    t: Seq<ClockState>,
    i1: int,
    i2: int,
    i3: int,
    j1: int,
    j2: int,
    j3: int,
)
    requires
        clock_trace(t),
        0 <= i1 <= i2 <= i3,
        i3 <= j1,
        j1 <= j2 <= j3 < t.len(),
        t[i1].ovf == t[i3].ovf,
        t[j1].ovf == t[j3].ovf,
    ensures
        wide_ticks(t[i1].ovf, t[i2].raw) <= wide_ticks(t[j1].ovf, t[j2].raw),
{
    lemma_stable_sample_is_exact(t, i1, i2, i3);
    lemma_stable_sample_is_exact(t, j1, j2, j3);
    lemma_ticks_monotonic(t, i2, j2);
}

/// Records how many times the hardware counter has overflowed; the overflow
/// interrupt handler records each overflow here exactly once.
pub struct Ticker {
    pub ovf_count: u32,
}

impl Ticker {
    pub fn new() -> (t: Ticker)
        ensures
            t.ovf_count == 0,
    {
        Ticker { ovf_count: 0 }
    }

    /// Called once per hardware overflow event.
    pub fn record_overflow(&mut self)
        requires
            old(self).ovf_count < u32::MAX,
        ensures
            final(self).ovf_count == old(self).ovf_count + 1,
    {
        self.ovf_count = self.ovf_count + 1;
    }

    /// The decision step of the retry-until-stable read protocol: the caller
    /// reads the overflow count, then the raw hardware counter, then the
    /// overflow count again. When the two overflow reads agree, the pair is
    /// consistent and the wide timestamp is reconstructed; when they differ,
    /// an overflow ran mid-read and the sample must be discarded and retried.
    pub fn now_from_sample(ovf_before: u32, raw: u32, ovf_after: u32) -> (r: Option<u64>)
        ensures
            r is Some <==> ovf_before == ovf_after,
            r matches Some(v) ==> v as nat == wide_ticks(ovf_before as nat, raw as nat),
    {
        if ovf_before == ovf_after {
            Some((ovf_before as u64) * COUNTER_PERIOD + (raw as u64) % COUNTER_PERIOD)
        } else {
            None
        }
    }
}

} // verus!
