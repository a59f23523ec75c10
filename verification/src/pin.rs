//! Pinned storage cells and the drop-flag-aware handle that serves them.
//!
//! A plain [`Slot`](crate::Slot) is inert: everything about the value it
//! backs, destruction included, lies with the [`OwnRef`](crate::OwnRef)
//! handle, so a leaked handle means a leaked value. That is unacceptable for
//! values that must be destroyed no later than their storage is reclaimed
//! (the address-stability contract of pinning). [`ManualOption`] is the
//! distrustful cell for that case: it keeps a runtime present-flag — here,
//! the discriminant of the [`Option`] it stores — and its own destruction
//! (the `Option`'s built-in drop glue) destroys the value exactly when the
//! flag is still set. Destroying the [`PinnedOwnRef`] handle normally clears
//! the flag first, so the cell's destruction becomes a no-op; leaking the
//! handle leaves the flag set, and the cell cleans up by itself.

use vstd::prelude::*;

use crate::own::OwnRef;

verus! {

/// Moral equivalent of an `Option<T>`, acting as address-stable backing
/// storage for one pinned value of type `T`.
///
/// The value lives inside the cell for its whole life: the handle returned
/// by [`ManualOption::holding`] never moves it, so the value's address is
/// stable from the fill until its destruction. The cell's view is what it
/// currently stores, and that is precisely what dropping the cell would
/// still destroy.
pub struct ManualOption<T> {
    value: Option<T>,
}

impl<T> View for ManualOption<T> {
    type V = Option<T>;

    /// The stored value, present exactly when the drop flag is set.
    closed spec fn view(&self) -> Option<T> {
        self.value
    }
}

/// The drop-flag-aware ownership handle produced by filling a
/// [`ManualOption`] cell.
///
/// The value it owns stays in the cell, so every operation of the handle
/// names the cell it was created from; the handle itself is a move-only
/// token recording which value it is responsible for. Consuming the handle
/// through [`PinnedOwnRef::dispose`] destroys the value and clears the
/// cell's flag; merely leaking the handle leaves the flag set, and the
/// cell's own destruction destroys the value instead — exactly once either
/// way.
pub struct PinnedOwnRef<T> {
    owned: Ghost<T>,
}

impl<T> View for PinnedOwnRef<T> {
    type V = T;

    /// The value this handle is responsible for destroying.
    closed spec fn view(&self) -> T {
        self.owned@
    }
}

/// What destroying the cell itself would destroy: exactly the value the
/// cell still holds.
///
/// A [`ManualOption`] stores its value in an [`Option`] field, so dropping
/// the cell runs the `Option`'s built-in drop glue, which destroys the
/// payload precisely when the present-flag — the discriminant — is still
/// set. This spec function names that behavior so the leak-safety law can
/// speak about it.
pub open spec fn destroyed_with_cell<T>(cell: ManualOption<T>) -> Option<T> {
    cell@
}

/// Pin leak safety: after a fill stored `value`, the value is destroyed
/// exactly once, whatever becomes of the handle. If the handle is leaked,
/// the cell still holds the value, and destroying the cell destroys it —
/// once. If the handle instead went through normal destruction
/// ([`PinnedOwnRef::dispose`]), the cell is vacant, and destroying it
/// destroys nothing further.
pub proof fn lemma_pin_leak_safety<T>(leaked: ManualOption<T>, disposed: ManualOption<T>, value: T)
    requires
        leaked@ == Some(value),
        disposed@ is None,
    ensures
        destroyed_with_cell(leaked) == Some(value),
        destroyed_with_cell(disposed) is None,
{
}

/// Creates an empty pinned storage cell, to be filled with
/// [`ManualOption::holding`].
pub fn slot<T>() -> (cell: ManualOption<T>)
    ensures
        cell@ is None,
{
    ManualOption { value: None }
}

impl<T> ManualOption<T> {
    /// Moral equivalent of `Option::Some`: a cell created already holding
    /// `value`, with its present-flag set.
    pub fn new_some(value: T) -> (cell: Self)
        ensures
            cell@ == Some(value),
    {
        ManualOption { value: Some(value) }
    }

    /// Converts an ordinary `Option` into a cell with the matching flag.
    pub fn from_option(value: Option<T>) -> (cell: Self)
        ensures
            cell@ == value,
    {
        ManualOption { value }
    }

    /// Converts the cell back into an ordinary `Option`, moving the value
    /// (if any) out; nothing is destroyed.
    ///
    /// Consuming the cell ends its pinning role: every operation of an
    /// outstanding handle names the cell it was created from, so a handle
    /// whose cell is gone can no longer be used, and the moved-out value is
    /// destroyed exactly once, by whoever now owns it.
    pub fn into_option(self) -> (value: Option<T>)
        ensures
            value == self@,
    {
        let ManualOption { value } = self;
        value
    }

    /// Moral equivalent of `Option::as_ref`.
    pub fn as_ref(&self) -> (r: Option<&T>)
        ensures
            match r {
                Some(v) => self@ == Some(*v),
                None => self@ is None,
            },
    {
        self.value.as_ref()
    }

    /// Fills the empty cell with `value`, setting its present-flag and
    /// yielding the one live handle for this fill.
    ///
    /// Re-filling is disallowed while the flag is set: the prior handle must
    /// first have gone through normal destruction ([`PinnedOwnRef::dispose`]).
    pub fn holding(&mut self, value: T) -> (handle: PinnedOwnRef<T>)
        requires
            old(self)@ is None,
        ensures
            final(self)@ == Some(handle@),
            handle@ == value,
    {
        let handle = PinnedOwnRef { owned: Ghost(value) };
        self.value = Some(value);
        handle
    }
}

impl<'slot, T> OwnRef<'slot, T> {
    /// Same as [`OwnRef::with`], but for the value being pinned: reserves a
    /// pinned cell, fills it with `value`, and hands the drop-flag-aware
    /// handle to `scope` together with the cell backing it. Whatever `scope`
    /// does with the handle — consume it, or leak it — the value is
    /// destroyed exactly once by the time this function returns, since the
    /// cell is destroyed on exit.
    pub fn with_pinned<R, F: for<'any> FnOnce(PinnedOwnRef<T>, &'any mut ManualOption<T>) -> R>(
        value: T,
        scope: F,
    ) -> (r: R)
        requires
            forall|handle: PinnedOwnRef<T>, cell: &mut ManualOption<T>|
                handle@ == value && mut_ref_current(cell)@ == Some(value)
                    ==> #[trigger] call_requires(scope, (handle, cell)),
        ensures
            exists|handle: PinnedOwnRef<T>, cell: &mut ManualOption<T>|
                handle@ == value && mut_ref_current(cell)@ == Some(value)
                    && #[trigger] call_ensures(scope, (handle, cell), r),
    {
        let mut storage = slot();
        let handle = storage.holding(value);
        scope(handle, &mut storage)
    }
}

impl<T> PinnedOwnRef<T> {
    /// Normal destruction of the handle: destroys the value it owns and
    /// clears the cell's present-flag, so the cell's own destruction
    /// becomes a no-op.
    pub fn dispose(self, cell: &mut ManualOption<T>)
        requires
            old(cell)@ == Some(self@),
        ensures
            final(cell)@ is None,
    {
        let _destroyed = cell.value.take();
    }

    /// Dereferences the pinned value in place, without consuming the handle.
    pub fn deref<'a>(&self, cell: &'a ManualOption<T>) -> (r: &'a T)
        requires
            cell@ == Some(self@),
        ensures
            *r == self@,
    {
        cell.value.as_ref().unwrap()
    }

    /// Replaces the whole pinned value atomically, re-establishing the flag
    /// invariant: the old value moves out, the new one is pinned in its
    /// place, and the fresh handle takes over the destruction duty.
    ///
    /// This is the only mutation the pinned handle offers: field-level
    /// mutation of a flagged value could desynchronise value and flag.
    pub fn replace(self, cell: &mut ManualOption<T>, value: T) -> (r: (T, PinnedOwnRef<T>))
        requires
            old(cell)@ == Some(self@),
        ensures
            r.0 == self@,
            r.1@ == value,
            final(cell)@ == Some(value),
    {
        let previous = cell.value.take().unwrap();
        let handle = cell.holding(value);
        (previous, handle)
    }
}

} // verus!
