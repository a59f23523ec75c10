//! Backing storage cells for [`OwnRef`] handles.

use vstd::prelude::*;

use core::marker::PhantomData;

use crate::own::OwnRef;

verus! {

/// Inert backing storage for one value of type `T`.
///
/// A `Slot` never touches the value it backs: all of the `T`-interacting
/// logic, destruction included, lies with the [`OwnRef`] handle that
/// [`Slot::holding`] produces. While that handle is live, the slot is
/// exclusively borrowed, so a second fill of the same slot is rejected at
/// compile time; once the handle has been fully consumed, the slot may be
/// filled again.
pub struct Slot<T> {
    _storage: PhantomData<T>,
}

/// Reserves local storage capable of holding one owned value of type `T`.
///
/// The returned cell is empty; fill it with [`Slot::holding`].
pub fn slot<T>() -> Slot<T> {
    Slot { _storage: PhantomData }
}

impl<T> Slot<T> {
    /// Fills the slot with `value`, yielding the one live handle for this
    /// fill. The handle is bounded by the borrow of the slot, so it cannot
    /// outlive the storage backing it.
    pub fn holding<'slot>(&'slot mut self, value: T) -> (handle: OwnRef<'slot, T>)
        ensures
            handle@ == value,
    {
        OwnRef::make(value)
    }
}

/// Batch variant of [`slot()`]: produces a tuple of empty slots in one call.
pub fn slots<Slots: TupleSlots>() -> Slots {
    Slots::tuple_slots()
}

/// Tuples of empty [`Slot`]s, for [`slots()`].
pub trait TupleSlots: Sized {
    /// Builds the tuple with every slot empty.
    fn tuple_slots() -> Self;
}

impl TupleSlots for () {
    fn tuple_slots() -> Self {
        ()
    }
}

impl<A> TupleSlots for (Slot<A>,) {
    fn tuple_slots() -> Self {
        (slot(),)
    }
}

impl<A, B> TupleSlots for (Slot<A>, Slot<B>) {
    fn tuple_slots() -> Self {
        (slot(), slot())
    }
}

impl<A, B, C> TupleSlots for (Slot<A>, Slot<B>, Slot<C>) {
    fn tuple_slots() -> Self {
        (slot(), slot(), slot())
    }
}

} // verus!
