use vstd::prelude::*;
use vstd::multiset::Multiset;

verus! {

// The deadline registry keeps its (deadline, task id) pairs in a bounded
// min-heap of the heapless crate, and the scheduler keeps its ready queue in
// a bounded FIFO of the same crate. Both collections are declared here and
// used through small trusted wrappers whose contracts state, over the two
// content names below, what the crate's source shows. The wrappers take the
// collections by exclusive reference, so each call sees them sequentially.

#[verifier::external_type_specification]
#[verifier::external_body]
#[verifier::reject_recursive_types(T)]
#[verifier::reject_recursive_types(K)]
pub struct ExBinaryHeap<T, K, const N: usize>(heapless::binary_heap::BinaryHeap<T, K, N>);

#[verifier::external_type_specification]
#[verifier::external_body]
pub struct ExMin(heapless::binary_heap::Min);

#[verifier::external_type_specification]
#[verifier::external_body]
#[verifier::reject_recursive_types(T)]
pub struct ExMpMcQueue<T, const N: usize>(heapless::mpmc::MpMcQueue<T, N>);

/// Bounded min-heap of (deadline, task id) pairs, earliest deadline on top.
pub type DeadlineHeap = heapless::binary_heap::BinaryHeap<
    (u64, usize),
    heapless::binary_heap::Min,
    8,
>;

/// Bounded FIFO of task ids waiting to be run.
pub type TaskQueue = heapless::mpmc::MpMcQueue<usize, 4>;

/// The entries a deadline heap holds, as a multiset: the heap's internal
/// order is not observable, only which pairs it holds.
pub uninterp spec fn heap_entries(h: DeadlineHeap) -> Multiset<(u64, usize)>;

/// The items a task queue holds, oldest first.
pub uninterp spec fn queue_entries(q: TaskQueue) -> Seq<usize>;

/// `e` is an entry of `m` whose deadline is no later than any entry's.
pub open spec fn deadline_min(m: Multiset<(u64, usize)>, e: (u64, usize)) -> bool {
    &&& m.contains(e)
    &&& forall|x: (u64, usize)| #[trigger] m.count(x) > 0 ==> e.0 <= x.0
}

/// Relies on heapless::binary_heap::BinaryHeap::new: creates an empty heap.
#[verifier::external_body]
pub(crate) fn heap_new() -> (h: DeadlineHeap)
    ensures
        heap_entries(h) == Multiset::<(u64, usize)>::empty(),
{
    heapless::binary_heap::BinaryHeap::new()
}

/// Relies on heapless::binary_heap::BinaryHeap::push: inserts the entry, or
/// hands it back untouched when the heap already holds 8 entries.
#[verifier::external_body]
pub(crate) fn heap_push(h: &mut DeadlineHeap, e: (u64, usize)) -> (ok: bool)
    ensures
        ok <==> heap_entries(*old(h)).len() < 8,
        ok ==> heap_entries(*final(h)) == heap_entries(*old(h)).insert(e),
        !ok ==> *final(h) == *old(h),
{
    h.push(e).is_ok()
}

/// Relies on heapless::binary_heap::BinaryHeap::peek on a min-heap: returns
/// the least entry under the lexicographic order on pairs — in particular one
/// whose deadline is least — without removing it.
#[verifier::external_body]
pub(crate) fn heap_peek(h: &DeadlineHeap) -> (r: Option<(u64, usize)>)
    ensures
        r is None <==> heap_entries(*h).len() == 0,
        r matches Some(e) ==> deadline_min(heap_entries(*h), e),
{
    h.peek().copied()
}

/// Relies on heapless::binary_heap::BinaryHeap::pop on a min-heap: removes
/// and returns the least entry, or returns `None` when the heap is empty.
#[verifier::external_body]
pub(crate) fn heap_pop(h: &mut DeadlineHeap) -> (r: Option<(u64, usize)>)
    ensures
        r is None <==> heap_entries(*old(h)).len() == 0,
        r is None ==> *final(h) == *old(h),
        r matches Some(e) ==> deadline_min(heap_entries(*old(h)), e) && heap_entries(*final(h))
            == heap_entries(*old(h)).remove(e),
{
    h.pop()
}

/// Relies on heapless::mpmc::MpMcQueue::new: creates an empty queue.
#[verifier::external_body]
pub(crate) fn queue_new() -> (q: TaskQueue)
    ensures
        queue_entries(q) == Seq::<usize>::empty(),
{
    heapless::mpmc::MpMcQueue::new()
}

/// Relies on heapless::mpmc::MpMcQueue::enqueue, used sequentially: appends
/// the item, or hands it back untouched when the queue already holds 4 items.
#[verifier::external_body]
pub(crate) fn queue_push(q: &mut TaskQueue, id: usize) -> (ok: bool)
    ensures
        ok <==> queue_entries(*old(q)).len() < 4,
        ok ==> queue_entries(*final(q)) == queue_entries(*old(q)).push(id),
        !ok ==> *final(q) == *old(q),
{
    q.enqueue(id).is_ok()
}

/// Relies on heapless::mpmc::MpMcQueue::dequeue, used sequentially: removes
/// and returns the oldest item, or returns `None` when the queue is empty.
#[verifier::external_body]
pub(crate) fn queue_pop(q: &mut TaskQueue) -> (r: Option<usize>)
    ensures
        r is None <==> queue_entries(*old(q)).len() == 0,
        r is None ==> *final(q) == *old(q),
        queue_entries(*old(q)).len() > 0 ==> r == Some(queue_entries(*old(q))[0]) && queue_entries(
            *final(q),
        ) == queue_entries(*old(q)).drop_first(),
{
    q.dequeue()
}

} // verus!
