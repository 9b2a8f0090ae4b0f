//! The rolling capture buffer: a fixed-capacity window over an unbounded byte
//! stream. It always retains the most recently ingested `capacity` bytes, in
//! their original order, and counts every byte ever ingested.

use crate::ring::{ring_capacity, ring_clone, ring_contents, ring_new, ring_pop, ring_push};
use rbl_circular_buffer::CircularBuffer;
use vstd::prelude::*;

verus! {

/// Mathematical state of a rolling capture buffer: the fixed capacity and the
/// complete history of bytes ever ingested, oldest first.
pub struct CaptureModel {
    pub capacity: nat,
    pub history: Seq<u8>,
}

/// The bytes a buffer with the given history retains: the whole history while
/// it fits, otherwise its last `capacity` bytes.
pub open spec fn retained(history: Seq<u8>, capacity: nat) -> Seq<u8> {
    if history.len() <= capacity {
        history
    } else {
        history.skip(history.len() - capacity)
    }
}

/// A fixed-capacity rolling window over a byte stream. Bytes beyond the
/// capacity are evicted oldest-first; the count of ingested bytes is monotonic
/// and never reset.
pub struct RollingBuffer {
    ring: CircularBuffer<u8>,
    total_ingested: usize,
    capacity: usize,
    history: Ghost<Seq<u8>>,
}

impl View for RollingBuffer {
    type V = CaptureModel;

    closed spec fn view(&self) -> CaptureModel {
        CaptureModel { capacity: self.capacity as nat, history: self.history@ }
    }
}

/// Evicting-append: pushing one byte onto the retained window drops its oldest
/// byte exactly when the window is full.
pub proof fn lemma_retained_push(history: Seq<u8>, capacity: nat, value: u8)
    requires
        capacity > 0,
    ensures
        retained(history.push(value), capacity) == (if retained(history, capacity).len()
            < capacity {
            retained(history, capacity).push(value)
        } else {
            retained(history, capacity).skip(1).push(value)
        }),
{
    if history.len() < capacity {
        assert(retained(history.push(value), capacity) =~= retained(history, capacity).push(value));
    } else {
        assert(retained(history.push(value), capacity) =~= retained(history, capacity).skip(
            1,
        ).push(value));
    }
}

impl RollingBuffer {
    /// The buffer's representation matches its model: the ring holds exactly
    /// the retained window of the history, and the counter is the history's
    /// length.
    pub closed spec fn wf(self) -> bool {
        &&& self.capacity > 0
        &&& ring_capacity(self.ring) == self@.capacity
        &&& self.total_ingested == self@.history.len()
        &&& ring_contents(self.ring) == retained(self@.history, self@.capacity)
    }

    /// Creates an empty buffer that will retain at most `capacity` bytes.
    pub fn new(capacity: usize) -> (r: Self)
        requires
            capacity > 0,
        ensures
            r.wf(),
            r@.capacity == capacity,
            r@.history == Seq::<u8>::empty(),
    {
        RollingBuffer {
            ring: ring_new(capacity),
            total_ingested: 0,
            capacity,
            history: Ghost(Seq::empty()),
        }
    }

    /// The fixed capacity this buffer was created with.
    pub fn capacity(&self) -> (r: usize)
        ensures
            r == self@.capacity,
    {
        self.capacity
    }

    /// How many bytes have ever been ingested, eviction notwithstanding.
    pub fn total_ingested(&self) -> (r: usize)
        requires
            self.wf(),
        ensures
            r == self@.history.len(),
    {
        self.total_ingested
    }

    fn push_byte(&mut self, value: u8)
        requires
            old(self).wf(),
            old(self)@.history.len() < usize::MAX,
        ensures
            final(self).wf(),
            final(self)@.capacity == old(self)@.capacity,
            final(self)@.history == old(self)@.history.push(value),
    {
        proof {
            lemma_retained_push(self@.history, self@.capacity, value);
        }
        let ghost h0 = self@.history;
        let _ = ring_push(&mut self.ring, value);
        self.total_ingested = self.total_ingested + 1;
        self.history = Ghost(h0.push(value));
    }

    /// Appends the given bytes in order, evicting the oldest retained bytes
    /// first once the logical length would exceed the capacity. Never fails;
    /// the ingested count grows by exactly the number of bytes given.
    pub fn ingest(&mut self, bytes: &[u8])
        requires
            old(self).wf(),
            old(self)@.history.len() + bytes@.len() <= usize::MAX,
        ensures
            final(self).wf(),
            final(self)@.capacity == old(self)@.capacity,
            final(self)@.history == old(self)@.history + bytes@,
    {
        let ghost orig = self@.history;
        let mut i: usize = 0;
        while i < bytes.len()
            invariant
                self.wf(),
                i <= bytes@.len(),
                self@.capacity == old(self)@.capacity,
                self@.history == orig + bytes@.take(i as int),
                orig.len() + bytes@.len() <= usize::MAX,
            decreases bytes@.len() - i,
        {
            proof {
                assert((orig + bytes@.take(i as int)).push(bytes@[i as int]) =~= orig + bytes@.take(
                    i + 1,
                ));
            }
            self.push_byte(bytes[i]);
            i = i + 1;
        }
        proof {
            assert(orig + bytes@.take(bytes@.len() as int) =~= orig + bytes@);
        }
    }

    /// The retained window, oldest byte first, without mutating the buffer.
    pub fn snapshot_bytes(&self) -> (r: Vec<u8>)
        requires
            self.wf(),
        ensures
            r@ == retained(self@.history, self@.capacity),
    {
        let ghost target = retained(self@.history, self@.capacity);
        let mut copy = ring_clone(&self.ring);
        let mut out: Vec<u8> = Vec::new();
        loop
            invariant
                target == out@ + ring_contents(copy),
            ensures
                ring_contents(copy).len() == 0,
                target == out@ + ring_contents(copy),
            decreases ring_contents(copy).len(),
        {
            match ring_pop(&mut copy) {
                Some(v) => {
                    proof {
                        assert(out@.push(v) + ring_contents(copy) =~= target);
                    }
                    out.push(v);
                },
                None => {
                    break ;
                },
            }
        }
        proof {
            assert(out@ =~= target);
        }
        out
    }

    /// Whether any byte has ever been evicted: true exactly when more bytes
    /// were ingested than the buffer can retain.
    pub fn truncated(&self) -> (r: bool)
        requires
            self.wf(),
        ensures
            r == (self@.history.len() > self@.capacity),
    {
        self.total_ingested > self.capacity
    }
}

} // verus!
