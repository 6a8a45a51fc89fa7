//! The six key slots of a boot keyboard, held in an `arrayvec::ArrayVec`.
use vstd::prelude::*;
use arrayvec::ArrayVec;

verus! {

/// Up to six scancodes in an `arrayvec::ArrayVec`, opaque to the verifier:
/// its contents are `slots_of`.
#[verifier::external_body]
pub struct KeySlots {
    slots: ArrayVec<[u8; 6]>,
}

/// The scancodes held in the slots, in order.
pub uninterp spec fn slots_of(v: KeySlots) -> Seq<u8>;

/// Relies on `ArrayVec::new`: a new vector is empty.
#[verifier::external_body]
pub(crate) fn slots_new() -> (r: KeySlots)
    ensures
        slots_of(r) == Seq::<u8>::empty(),
{
    KeySlots { slots: ArrayVec::new() }
}

/// Relies on `ArrayVec::as_slice`: the slice holds the elements in order.
#[verifier::external_body]
pub(crate) fn slots_as_slice(v: &KeySlots) -> (r: &[u8])
    ensures
        r@ == slots_of(*v),
{
    v.slots.as_slice()
}

/// Relies on `ArrayVec::push`: appends at the end; it panics only when the
/// vector is full, which the precondition rules out.
#[verifier::external_body]
pub(crate) fn slots_push(v: &mut KeySlots, k: u8)
    requires
        slots_of(*old(v)).len() < 6,
    ensures
        slots_of(*final(v)) == slots_of(*old(v)).push(k),
{
    v.slots.push(k)
}

/// Relies on `ArrayVec::clear`: afterwards the vector is empty.
#[verifier::external_body]
pub(crate) fn slots_clear(v: &mut KeySlots)
    ensures
        slots_of(*final(v)) == Seq::<u8>::empty(),
{
    v.slots.clear()
}

/// Relies on `ArrayVec::swap_remove`: the last element takes the place of the
/// removed one; it panics only on an index out of bounds, which the
/// precondition rules out.
#[verifier::external_body]
pub(crate) fn slots_swap_remove(v: &mut KeySlots, i: usize) -> (r: u8)
    requires
        i < slots_of(*old(v)).len(),
    ensures
        r == slots_of(*old(v))[i as int],
        slots_of(*final(v)) == slots_of(*old(v)).update(i as int, slots_of(*old(v)).last()).drop_last(),
{
    v.slots.swap_remove(i)
}

} // verus!
