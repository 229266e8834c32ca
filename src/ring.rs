use vstd::prelude::*;

use std::mem::MaybeUninit;

use ringbuf::{LocalRb, Rb};

verus! {

/// `ringbuf`'s heap-backed, single-threaded ring buffer of sample words, held opaquely:
/// what it holds is known to proofs only through `rb_items` and `rb_capacity`.
#[verifier::external_body]
pub struct SampleRing {
    rb: LocalRb<u32, Vec<MaybeUninit<u32>>>,
}

/// The items a ring buffer holds, oldest first.
pub uninterp spec fn rb_items(r: SampleRing) -> Seq<u32>;

/// The fixed number of items a ring buffer can hold.
pub uninterp spec fn rb_capacity(r: SampleRing) -> nat;

/// Relies on `LocalRb::new`: an empty buffer with room for exactly `capacity` items
/// (it panics on zero, which `requires` leaves out).
#[verifier::external_body]
pub(crate) fn ring_new(capacity: usize) -> (r: SampleRing)
    requires
        capacity > 0,
    ensures
        rb_items(r) == Seq::<u32>::empty(),
        rb_capacity(r) == capacity as nat,
{
    SampleRing { rb: LocalRb::new(capacity) }
}

/// Relies on `Producer::push_slice` (through `LocalRb::split_ref`): it appends the
/// longest prefix of `items` that fits in the free space and returns its length.
#[verifier::external_body]
pub(crate) fn ring_push_slice(r: &mut SampleRing, items: &[u32]) -> (n: usize)
    ensures
        rb_capacity(*final(r)) == rb_capacity(*old(r)),
        n as int == if items@.len() <= rb_capacity(*old(r)) - rb_items(*old(r)).len() {
            items@.len() as int
        } else {
            rb_capacity(*old(r)) - rb_items(*old(r)).len()
        },
        rb_items(*final(r)) == rb_items(*old(r)) + items@.subrange(0, n as int),
{
    let (mut prod, _cons) = r.rb.split_ref();
    prod.push_slice(items)
}

/// Relies on `Rb::len`: the number of items held.
#[verifier::external_body]
pub(crate) fn ring_len(r: &SampleRing) -> (n: usize)
    ensures
        n as nat == rb_items(*r).len(),
{
    r.rb.len()
}

/// Relies on `Rb::capacity`: the fixed capacity the buffer was made with.
#[verifier::external_body]
pub(crate) fn ring_capacity(r: &SampleRing) -> (n: usize)
    ensures
        n as nat == rb_capacity(*r),
{
    r.rb.capacity()
}

/// Relies on `Rb::is_full`: true when no vacant place is left.
#[verifier::external_body]
pub(crate) fn ring_is_full(r: &SampleRing) -> (b: bool)
    ensures
        b == (rb_items(*r).len() == rb_capacity(*r)),
{
    ringbuf::ring_buffer::RbBase::is_full(&r.rb)
}

/// Relies on `Consumer::pop_iter` (through `LocalRb::split_ref`): it removes every
/// held item, oldest first.
#[verifier::external_body]
pub(crate) fn ring_pop_all(r: &mut SampleRing) -> (v: Vec<u32>)
    ensures
        v@ == rb_items(*old(r)),
        rb_items(*final(r)) == Seq::<u32>::empty(),
        rb_capacity(*final(r)) == rb_capacity(*old(r)),
{
    let (_prod, mut cons) = r.rb.split_ref();
    cons.pop_iter().collect::<Vec<u32>>()
}

} // verus!
