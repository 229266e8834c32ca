use vstd::prelude::*;

use crate::ring::{
    rb_capacity, rb_items, ring_capacity, ring_is_full, ring_len, ring_new, ring_pop_all,
    ring_push_slice, SampleRing,
};

verus! {

/// Why a capture buffer could not be made.
#[derive(Debug, Clone, Copy, PartialEq, Eq, Structural)]
pub enum BufferError {
    /// A buffer must have room for at least one sample.
    InvalidCapacity,
}

/// How many of `n` offered samples fit beside `held` already held, out of `cap`.
pub open spec fn accepted_count(held: nat, cap: nat, n: nat) -> nat {
    if n + held <= cap {
        n
    } else if held <= cap {
        (cap - held) as nat
    } else {
        0
    }
}

/// What a buffer holding `items`, with room for `cap`, holds after `s` is pushed:
/// the samples that fit are appended in order, the rest are dropped.
pub open spec fn pushed(items: Seq<u32>, cap: nat, s: Seq<u32>) -> Seq<u32> {
    items + s.take(accepted_count(items.len(), cap, s.len()) as int)
}

/// What the buffer holds after each of `chunks` is pushed in turn.
pub open spec fn pushed_all(items: Seq<u32>, cap: nat, chunks: Seq<Seq<u32>>) -> Seq<u32>
    decreases chunks.len(),
{
    if chunks.len() == 0 {
        items
    } else {
        pushed_all(pushed(items, cap, chunks.first()), cap, chunks.drop_first())
    }
}

/// What a drain hands out, and what the buffer holds after it.
pub open spec fn drained(items: Seq<u32>) -> (Seq<u32>, Seq<u32>) {
    (items, Seq::<u32>::empty())
}

/// Pushes never take a buffer past its capacity, and a push of no more samples than
/// there is room for grows the buffer by exactly their number.
pub proof fn lemma_capacity_invariant(items: Seq<u32>, cap: nat, chunks: Seq<Seq<u32>>)
    requires
        items.len() <= cap,
    ensures
        pushed_all(items, cap, chunks).len() <= cap,
        forall|s: Seq<u32>|
            s.len() <= cap - items.len() ==> #[trigger] pushed(items, cap, s).len() == items.len()
                + s.len(),
    decreases chunks.len(),
{
    if chunks.len() > 0 {
        lemma_capacity_invariant(pushed(items, cap, chunks.first()), cap, chunks.drop_first());
    }
}

/// A drain hands out exactly what was held, and a second drain right after hands out
/// nothing.
pub proof fn lemma_drain_twice(items: Seq<u32>)
    ensures
        drained(items).0.len() == items.len(),
        drained(drained(items).1).0 == Seq::<u32>::empty(),
{
}

/// Samples leave in the order they were pushed, across pushes: after a series of
/// pushes the buffer holds the longest prefix of everything offered that fits.
pub proof fn lemma_order_preserved(items: Seq<u32>, cap: nat, chunks: Seq<Seq<u32>>)
    requires
        items.len() <= cap,
    ensures
        pushed_all(items, cap, chunks) == (items + chunks.flatten()).take(
            if (items + chunks.flatten()).len() <= cap {
                (items + chunks.flatten()).len() as int
            } else {
                cap as int
            },
        ),
    decreases chunks.len(),
{
    let all = items + chunks.flatten();
    if chunks.len() == 0 {
        assert(all =~= items);
        assert(all.take(all.len() as int) =~= all);
    } else {
        let c = chunks.first();
        let rest = chunks.drop_first();
        let m = pushed(items, cap, c);
        lemma_order_preserved(m, cap, rest);
        assert(all =~= items + c + rest.flatten());
        if c.len() + items.len() <= cap {
            assert(m =~= items + c);
            assert(m + rest.flatten() =~= all);
        } else {
            let k = cap - items.len();
            assert(m =~= items + c.take(k));
            assert(m.len() == cap);
            assert((m + rest.flatten()).take(cap as int) =~= m);
            assert(all.take(cap as int) =~= m);
        }
    }
}

/// A fixed-capacity FIFO queue of samples that stops accepting once full.
///
/// A sample is carried as the 32-bit word of its bit pattern; the buffer never
/// interprets it.
pub struct CaptureBuffer {
    ring: SampleRing,
}

impl View for CaptureBuffer {
    type V = Seq<u32>;

    /// The samples held, oldest first.
    closed spec fn view(&self) -> Seq<u32> {
        rb_items(self.ring)
    }
}

impl CaptureBuffer {
    /// The number of samples the buffer can hold, fixed when it is made.
    pub closed spec fn cap(&self) -> nat {
        rb_capacity(self.ring)
    }

    /// The capacity is positive, fits in `usize`, and is never exceeded.
    pub open spec fn wf(&self) -> bool {
        &&& 0 < self.cap()
        &&& self.cap() <= usize::MAX
        &&& self@.len() <= self.cap()
    }

    /// An empty buffer with room for `capacity` samples; zero is refused.
    pub fn new(capacity: usize) -> (r: Result<CaptureBuffer, BufferError>)
        ensures
            capacity == 0 <==> r is Err,
            r is Err ==> r == Err::<CaptureBuffer, BufferError>(BufferError::InvalidCapacity),
            r matches Ok(b) ==> b.wf() && b@ == Seq::<u32>::empty() && b.cap() == capacity,
    {
        if capacity == 0 {
            Err(BufferError::InvalidCapacity)
        } else {
            Ok(CaptureBuffer { ring: ring_new(capacity) })
        }
    }

    /// Appends as many of `samples` as fit, in order, and returns how many.
    pub fn push_slice(&mut self, samples: &[u32]) -> (n: usize)
        requires
            old(self).wf(),
        ensures
            final(self).wf(),
            final(self).cap() == old(self).cap(),
            n as nat == accepted_count(old(self)@.len(), old(self).cap(), samples@.len()),
            final(self)@ == pushed(old(self)@, old(self).cap(), samples@),
    {
        ring_push_slice(&mut self.ring, samples)
    }

    /// True iff the buffer holds as many samples as its capacity.
    pub fn is_full(&self) -> (b: bool)
        ensures
            b == (self@.len() == self.cap()),
    {
        ring_is_full(&self.ring)
    }

    /// The number of samples held.
    pub fn held_count(&self) -> (n: usize)
        ensures
            n as nat == self@.len(),
    {
        ring_len(&self.ring)
    }

    /// The number of samples the buffer can hold.
    pub fn capacity(&self) -> (n: usize)
        ensures
            n as nat == self.cap(),
    {
        ring_capacity(&self.ring)
    }

    /// Removes and returns every held sample, oldest first; the buffer is empty after.
    pub fn drain(&mut self) -> (v: Vec<u32>)
        requires
            old(self).wf(),
        ensures
            final(self).wf(),
            final(self).cap() == old(self).cap(),
            (v@, final(self)@) == drained(old(self)@),
    {
        ring_pop_all(&mut self.ring)
    }
}

} // verus!
