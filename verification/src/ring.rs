//! The fixed-capacity window of one metric.
//!
//! The storage is `ringbuffer::AllocRingBuffer`. What this module states of
//! it is taken on trust from that crate's source; the rest of the library is
//! proved against these statements.

use ringbuffer::AllocRingBuffer;
use ringbuffer::RingBuffer;
use vstd::prelude::*;

verus! {

/// `ringbuffer::AllocRingBuffer`: opaque here; what it holds is spoken of
/// through `ring_items`, `ring_limit` and `ring_written`.
#[verifier::external_type_specification]
#[verifier::external_body]
#[verifier::reject_recursive_types(T)]
pub struct ExAllocRingBuffer<T>(AllocRingBuffer<T>);

/// The samples a window holds, oldest first.
pub uninterp spec fn ring_items(ring: &AllocRingBuffer<usize>) -> Seq<usize>;

/// The capacity a window was created with.
pub uninterp spec fn ring_limit(ring: &AllocRingBuffer<usize>) -> nat;

/// How many samples were written to a window since it was created. The ring
/// keeps this count in a machine word and cannot take a write once the word
/// is exhausted.
pub uninterp spec fn ring_written(ring: &AllocRingBuffer<usize>) -> nat;

/// Largest capacity a window can be created with: the ring allocates the next
/// power of two of its capacity in machine words, and that allocation must
/// not exceed `isize::MAX` bytes.
pub const MAX_WINDOW_CAPACITY: usize = usize::MAX / 32;

/// A window after `value` was appended to `items`: while there is room the
/// value is added at the young end; once `limit` samples are held the oldest
/// one leaves first.
pub open spec fn appended(items: Seq<usize>, limit: nat, value: usize) -> Seq<usize> {
    if items.len() < limit {
        items.push(value)
    } else {
        items.skip(1).push(value)
    }
}

/// A window after each of `values` was appended to `items` in turn.
pub open spec fn appended_all(items: Seq<usize>, limit: nat, values: Seq<usize>) -> Seq<usize>
    decreases values.len(),
{
    if values.len() == 0 {
        items
    } else {
        appended(appended_all(items, limit, values.drop_last()), limit, values.last())
    }
}

/// The youngest `limit` of `values`, in their order; all of them where there
/// are no more than `limit`.
pub open spec fn latest(values: Seq<usize>, limit: nat) -> Seq<usize> {
    if values.len() <= limit {
        values
    } else {
        values.skip(values.len() - limit)
    }
}

/// Appending never takes a window past its capacity: below it the window
/// grows by one sample, at it the window keeps its length and loses its
/// oldest sample.
pub proof fn lemma_append_stays_bounded(items: Seq<usize>, limit: nat, value: usize)
    requires
        limit >= 1,
        items.len() <= limit,
    ensures
        appended(items, limit, value).len() <= limit,
        appended(items, limit, value).last() == value,
        items.len() < limit ==> appended(items, limit, value) == items.push(value),
        items.len() == limit ==> {
            &&& appended(items, limit, value).len() == limit
            &&& forall|i: int|
                0 <= i < limit - 1 ==> #[trigger] appended(items, limit, value)[i] == items[i + 1]
        },
{
}

/// A window of capacity `limit` that starts empty and takes `values` one by
/// one holds the youngest `limit` of them in the order they were appended:
/// all of them while they are no more than `limit`.
pub proof fn lemma_window_holds_latest(limit: nat, values: Seq<usize>)
    requires
        limit >= 1,
    ensures
        appended_all(Seq::<usize>::empty(), limit, values) == latest(values, limit),
        appended_all(Seq::<usize>::empty(), limit, values).len() == if values.len() <= limit {
            values.len()
        } else {
            limit
        },
    decreases values.len(),
{
    if values.len() > 0 {
        let earlier = values.drop_last();
        lemma_window_holds_latest(limit, earlier);
        let window = appended_all(Seq::<usize>::empty(), limit, earlier);
        assert(window == latest(earlier, limit));
        assert(appended(window, limit, values.last()) =~= latest(values, limit));
    } else {
        assert(values =~= Seq::<usize>::empty());
    }
}

/// `AllocRingBuffer::new`: an empty ring of the given capacity with a fresh
/// write count. The crate panics on a capacity of zero and cannot lay out a
/// capacity above `MAX_WINDOW_CAPACITY`; both are left out. The allocation
/// itself is taken to succeed.
#[verifier::external_body]
pub(crate) fn ring_new(capacity: usize) -> (ring: AllocRingBuffer<usize>)
    requires
        0 < capacity <= MAX_WINDOW_CAPACITY,
    ensures
        ring_items(&ring) == Seq::<usize>::empty(),
        ring_limit(&ring) == capacity,
        ring_written(&ring) == 0,
{
    AllocRingBuffer::new(capacity)
}

/// `RingBuffer::capacity`: the capacity the ring was created with.
#[verifier::external_body]
pub(crate) fn ring_capacity(ring: &AllocRingBuffer<usize>) -> (capacity: usize)
    ensures
        capacity == ring_limit(ring),
{
    ring.capacity()
}

/// `RingBuffer::enqueue`: when the ring holds as many items as its capacity
/// the oldest item is taken out, then the value is written at the young end.
/// Capacity is unchanged and the write count grows by one. The crate
/// increments that count without a check, so a ring whose count is exhausted
/// is left out.
#[verifier::external_body]
pub(crate) fn ring_enqueue(ring: &mut AllocRingBuffer<usize>, value: usize)
    requires
        ring_written(old(ring)) < usize::MAX,
    ensures
        ring_items(final(ring)) == (if ring_items(old(ring)).len() == ring_limit(old(ring)) {
            ring_items(old(ring)).skip(1).push(value)
        } else {
            ring_items(old(ring)).push(value)
        }),
        ring_limit(final(ring)) == ring_limit(old(ring)),
        ring_written(final(ring)) == ring_written(old(ring)) + 1,
{
    let _ = ring.enqueue(value);
}

/// `RingBuffer::iter`: the items from the one written longest ago to the one
/// written last, each copied out.
#[verifier::external_body]
pub(crate) fn ring_values(ring: &AllocRingBuffer<usize>) -> (values: Vec<usize>)
    ensures
        values@ == ring_items(ring),
{
    ring.iter().copied().collect()
}

/// A ring with the capacity and the items of `ring`, written afresh: its
/// write count is the number of items it holds.
pub(crate) fn ring_rebuilt(ring: &AllocRingBuffer<usize>) -> (fresh: AllocRingBuffer<usize>)
    requires
        0 < ring_limit(ring) <= MAX_WINDOW_CAPACITY,
        ring_items(ring).len() <= ring_limit(ring),
    ensures
        ring_items(&fresh) == ring_items(ring),
        ring_limit(&fresh) == ring_limit(ring),
        ring_written(&fresh) == ring_items(ring).len(),
{
    let values: Vec<usize> = ring_values(ring);
    let mut fresh: AllocRingBuffer<usize> = ring_new(ring_capacity(ring));
    let mut i: usize = 0;
    while i < values.len()
        invariant
            i <= values.len(),
            values@ == ring_items(ring),
            values.len() <= ring_limit(ring) <= MAX_WINDOW_CAPACITY,
            ring_limit(&fresh) == ring_limit(ring),
            ring_written(&fresh) == i,
            ring_items(&fresh) == values@.take(i as int),
        decreases values.len() - i,
    {
        ring_enqueue(&mut fresh, values[i]);
        assert(values@.take(i as int).push(values@[i as int]) == values@.take(i + 1));
        i = i + 1;
    }
    assert(values@.take(values.len() as int) == values@);
    fresh
}

} // verus!
