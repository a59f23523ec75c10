//! Zero-allocation ownership handles over caller-supplied storage cells.
//!
//! A [`Slot`] reserves storage for one value; filling it yields an [`OwnRef`],
//! a move-only handle that owns the value and destroys it exactly once —
//! dropping the handle runs the value's destructor, while
//! [`OwnRef::deref_move`] disarms destruction by moving the value out. A slot
//! is reusable once its handle has been fully consumed, and misuse (a second
//! fill under a live handle, a handle outliving its storage) is rejected at
//! compile time by the exclusive-borrow discipline, with no runtime check.
//!
//! On top of the plain handle:
//!
//! - [`pin::ManualOption`] is the pinned storage cell: its value never moves
//!   after the fill, and a runtime present-flag makes the cell destroy the
//!   value itself if the owning [`PinnedOwnRef`] handle is leaked — the value
//!   is destroyed no later than its storage is reclaimed, exactly once,
//!   whatever the handle's fate.
//! - `OwnRef::call_ownref_0` … `call_ownref_3` invoke a held move-only
//!   callable by value, consuming handle and callable; their contracts state
//!   that the dispatched call admits exactly the results of a direct call.
//! - [`AnyRepr`] and [`OwnRef::unsize`] / [`OwnRef::downcast`] widen a handle
//!   into an erased, type-tagged representation and narrow it back, with the
//!   original handle returned unchanged when the tag comparison fails.

pub mod any;
mod fn_own;
mod own;
pub mod pin;
mod slot;

pub use any::{AnyRepr, AnyValue};
pub use own::OwnRef;
pub use pin::{ManualOption, PinnedOwnRef};
pub use slot::{slot, slots, Slot, TupleSlots};
