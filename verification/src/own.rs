//! The ownership handle: `&'slot own T`.

use vstd::prelude::*;

use core::marker::PhantomData;

verus! {

/// A move-only handle owning a value backed by storage it does not manage.
///
/// The handle carries the full ownership of the value of one fill of a
/// [`Slot`](crate::Slot): dropping the handle destroys the value exactly
/// once, and [`OwnRef::deref_move`] disarms that destruction by moving the
/// value out instead. The `'slot` parameter bounds the handle by the borrow
/// of the storage cell it was created from, so a handle can neither outlive
/// its backing storage nor coexist with a second handle for the same fill.
pub struct OwnRef<'slot, T> {
    value: T,
    _slot: PhantomData<&'slot mut ()>,
}

impl<'slot, T> View for OwnRef<'slot, T> {
    type V = T;

    /// The handle's model is the owned value itself.
    closed spec fn view(&self) -> T {
        self.value
    }
}

impl<'slot, T> OwnRef<'slot, T> {
    /// Wraps freshly written storage into the one handle for this fill.
    pub(crate) fn make(value: T) -> (handle: Self)
        ensures
            handle@ == value,
    {
        OwnRef { value, _slot: PhantomData }
    }

    /// Performs a "deref-move": reads the value out of the handle, disarming
    /// its destruction without running it — ownership moves to the caller.
    pub fn deref_move(self) -> (value: T)
        ensures
            value == self@,
    {
        let OwnRef { value, _slot } = self;
        value
    }

    /// Simple, albeit limited, scoped constructor: reserves storage, fills
    /// it with `value`, and hands the resulting handle to `scope`.
    pub fn with<R, F: for<'any> FnOnce(OwnRef<'any, T>) -> R>(value: T, scope: F) -> (r: R)
        requires
            forall|handle: OwnRef<'static, T>|
                handle@ == value ==> #[trigger] call_requires(scope, (handle,)),
        ensures
            exists|handle: OwnRef<'static, T>|
                handle@ == value && #[trigger] call_ensures(scope, (handle,), r),
    {
        let mut storage = crate::slot::slot();
        scope(storage.holding(value))
    }

    /// Dereferences the handle for in-place reads without consuming it.
    pub fn deref(&self) -> (r: &T)
        ensures
            *r == self@,
    {
        &self.value
    }

    /// Dereferences the handle for in-place mutation without consuming it.
    pub fn deref_mut(&mut self) -> (r: &mut T)
        ensures
            *r == old(self)@,
            final(self)@ == *final(r),
    {
        &mut self.value
    }
}

} // verus!
