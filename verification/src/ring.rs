//! Trusted interface to the fixed-capacity circular byte buffer of the
//! `rbl_circular_buffer` crate. The buffer value itself is opaque; the two
//! names below stand for what it holds and for the number of slots it was
//! created with, and every method the library calls is wrapped with a
//! contract taken from the crate's source.

use rbl_circular_buffer::CircularBuffer;
use vstd::prelude::*;

verus! {

#[verifier::external_type_specification]
#[verifier::external_body]
#[verifier::reject_recursive_types(T)]
pub struct ExCircularBuffer<T>(CircularBuffer<T>);

/// The bytes the circular buffer currently holds, oldest first.
pub uninterp spec fn ring_contents(b: CircularBuffer<u8>) -> Seq<u8>;

/// The number of slots the circular buffer was created with.
pub uninterp spec fn ring_capacity(b: CircularBuffer<u8>) -> nat;

/// Relies on CircularBuffer::new: a fresh buffer is empty and holds exactly
/// `size` slots. A buffer of zero slots would divide by zero on a later push,
/// so that size is excluded.
#[verifier::external_body]
pub(crate) fn ring_new(size: usize) -> (r: CircularBuffer<u8>)
    requires
        size > 0,
    ensures
        ring_capacity(r) == size,
        ring_contents(r) == Seq::<u8>::empty(),
{
    CircularBuffer::new(size)
}

/// Relies on CircularBuffer::push: appends one element, overwriting the oldest
/// element when the buffer is full, and returns the number of free slots left.
#[verifier::external_body]
pub(crate) fn ring_push(b: &mut CircularBuffer<u8>, value: u8) -> (free: usize)
    requires
        ring_capacity(*old(b)) > 0,
        ring_contents(*old(b)).len() <= ring_capacity(*old(b)),
    ensures
        ring_capacity(*final(b)) == ring_capacity(*old(b)),
        ring_contents(*final(b)) == if ring_contents(*old(b)).len() < ring_capacity(*old(b)) {
            ring_contents(*old(b)).push(value)
        } else {
            ring_contents(*old(b)).skip(1).push(value)
        },
        free == ring_capacity(*final(b)) - ring_contents(*final(b)).len(),
{
    b.push(value)
}

/// Relies on the Iterator impl of CircularBuffer: `next` removes and returns
/// the oldest element, or returns None when the buffer is empty.
#[verifier::external_body]
pub(crate) fn ring_pop(b: &mut CircularBuffer<u8>) -> (r: Option<u8>)
    ensures
        ring_capacity(*final(b)) == ring_capacity(*old(b)),
        (match r {
            Some(v) => ring_contents(*old(b)).len() > 0 && v == ring_contents(*old(b))[0]
                && ring_contents(*final(b)) == ring_contents(*old(b)).skip(1),
            None => ring_contents(*old(b)).len() == 0 && ring_contents(*final(b)) == ring_contents(
                *old(b),
            ),
        }),
{
    b.next()
}

/// Relies on the Clone impl of CircularBuffer: the copy holds the same
/// elements in the same order, in the same number of slots.
#[verifier::external_body]
pub(crate) fn ring_clone(b: &CircularBuffer<u8>) -> (r: CircularBuffer<u8>)
    ensures
        ring_capacity(r) == ring_capacity(*b),
        ring_contents(r) == ring_contents(*b),
{
    b.clone()
}

} // verus!
