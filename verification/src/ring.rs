//! smoltcp's ring buffer of octets.
//!
//! A ring is modelled by the octets it holds, oldest first, and by the most it
//! can hold.
use smoltcp::storage::RingBuffer;
use vstd::prelude::*;

verus! {

#[verifier::external_type_specification]
#[verifier::external_body]
#[verifier::reject_recursive_types(T)]
pub struct ExRingBuffer<'a, T: 'a>(RingBuffer<'a, T>);

/// The octets that a ring holds, oldest first.
pub uninterp spec fn ring_contents(ring: RingBuffer<'static, u8>) -> Seq<u8>;

/// The most octets that a ring can hold.
pub uninterp spec fn ring_capacity(ring: RingBuffer<'static, u8>) -> nat;

/// The smaller of two integers.
pub open spec fn least(a: int, b: int) -> int {
    if a <= b {
        a
    } else {
        b
    }
}

/// How many octets a buffer that holds `held` of at most `capacity` has room for.
pub open spec fn room(held: nat, capacity: nat) -> int {
    if held <= capacity {
        capacity - held
    } else {
        0
    }
}

/// `RingBuffer::new` on a vector: an empty ring whose capacity is the length of
/// the vector.
#[verifier::external_body]
pub(crate) fn ring_new(storage: Vec<u8>) -> (ring: RingBuffer<'static, u8>)
    ensures
        ring_contents(ring) == Seq::<u8>::empty(),
        ring_capacity(ring) == storage@.len(),
{
    RingBuffer::new(storage)
}

/// `RingBuffer::is_empty`: whether the ring holds nothing.
#[verifier::external_body]
pub(crate) fn ring_is_empty(ring: &RingBuffer<'static, u8>) -> (empty: bool)
    ensures
        empty == (ring_contents(*ring).len() == 0),
{
    ring.is_empty()
}

/// `RingBuffer::is_full`: whether the ring holds as much as it can; it never
/// holds more.
#[verifier::external_body]
pub(crate) fn ring_is_full(ring: &RingBuffer<'static, u8>) -> (full: bool)
    ensures
        full == (ring_contents(*ring).len() == ring_capacity(*ring)),
        !full ==> ring_contents(*ring).len() < ring_capacity(*ring),
{
    ring.is_full()
}

/// `RingBuffer::enqueue_slice`: appends as much of the front of `data` as there
/// is room for, and returns how much that was.
#[verifier::external_body]
pub(crate) fn ring_enqueue(ring: &mut RingBuffer<'static, u8>, data: &[u8]) -> (n: usize)
    ensures
        n == least(
            data@.len() as int,
            ring_capacity(*old(ring)) - ring_contents(*old(ring)).len(),
        ),
        ring_contents(*final(ring)) == ring_contents(*old(ring)) + data@.take(n as int),
        ring_capacity(*final(ring)) == ring_capacity(*old(ring)),
{
    ring.enqueue_slice(data)
}

/// `RingBuffer::dequeue_slice`: takes the oldest octets out, as many as there are
/// and `data` has room for, writes them to the front of `data`, and returns how
/// many they were.
#[verifier::external_body]
pub(crate) fn ring_dequeue(ring: &mut RingBuffer<'static, u8>, data: &mut [u8]) -> (n: usize)
    ensures
        n == least(old(data)@.len() as int, ring_contents(*old(ring)).len() as int),
        final(data)@ == ring_contents(*old(ring)).take(n as int) + old(data)@.skip(n as int),
        ring_contents(*final(ring)) == ring_contents(*old(ring)).skip(n as int),
        ring_capacity(*final(ring)) == ring_capacity(*old(ring)),
{
    ring.dequeue_slice(data)
}

} // verus!
