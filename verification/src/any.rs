//! Widening to an erased, any-like representation, and checked downcast
//! back out of it.
//!
//! The language offers no open runtime type information to verified code, so
//! erasure is modeled the way a tagged union models it: an [`AnyRepr`]
//! implementor is a closed universe of concrete types, each variant carrying
//! its own runtime type tag (the discriminant). Widening a handle converts
//! its value into the erased representation; the checked downcast compares
//! the tag and either restores the concrete value or returns the original,
//! unchanged — ownership is never lost on failure, and no panic occurs.
//! [`AnyValue`] is the sample universe shipped with the crate.

use vstd::prelude::*;

use crate::own::OwnRef;

verus! {

/// An erased, type-tagged representation able to hold values of the
/// concrete type `U` (among others).
pub trait AnyRepr<U>: Sized {
    /// The erased representation of `u`.
    spec fn erased(u: U) -> Self;

    /// Whether this erased value holds `u` — its tag matches `U` and its
    /// payload is `u`.
    spec fn wraps(self, u: U) -> bool;

    /// Erasing a value yields a representation holding exactly that value.
    proof fn lemma_erased_wraps(u: U)
        ensures
            Self::erased(u).wraps(u),
    ;

    /// An erased value holds at most one value of type `U`.
    proof fn lemma_wraps_unique(self, u1: U, u2: U)
        requires
            self.wraps(u1),
            self.wraps(u2),
        ensures
            u1 == u2,
    ;

    /// Erases `u` into the tagged representation.
    fn erase(u: U) -> (e: Self)
        ensures
            e == Self::erased(u),
    ;

    /// The checked downcast on the representation: compares the runtime
    /// type tag against `U`, restoring the concrete value on a match and
    /// returning the representation unchanged on a mismatch.
    fn try_restore(self) -> (r: Result<U, Self>)
        ensures
            match r {
                Ok(u) => self.wraps(u),
                Err(e) => e == self && forall|u: U| !self.wraps(u),
            },
    ;
}

/// The sample erased universe: an integer or a text, behind one type-tagged
/// representation.
pub enum AnyValue {
    /// An erased `i64`.
    Int(i64),
    /// An erased `String`.
    Text(String),
}

impl AnyRepr<i64> for AnyValue {
    open spec fn erased(u: i64) -> Self {
        AnyValue::Int(u)
    }

    open spec fn wraps(self, u: i64) -> bool {
        self == AnyValue::Int(u)
    }

    proof fn lemma_erased_wraps(u: i64) {
    }

    proof fn lemma_wraps_unique(self, u1: i64, u2: i64) {
    }

    fn erase(u: i64) -> (e: Self) {
        AnyValue::Int(u)
    }

    fn try_restore(self) -> (r: Result<i64, Self>) {
        match self {
            AnyValue::Int(v) => Ok(v),
            other => Err(other),
        }
    }
}

impl AnyRepr<String> for AnyValue {
    open spec fn erased(u: String) -> Self {
        AnyValue::Text(u)
    }

    open spec fn wraps(self, u: String) -> bool {
        self == AnyValue::Text(u)
    }

    proof fn lemma_erased_wraps(u: String) {
    }

    proof fn lemma_wraps_unique(self, u1: String, u2: String) {
    }

    fn erase(u: String) -> (e: Self) {
        AnyValue::Text(u)
    }

    fn try_restore(self) -> (r: Result<String, Self>) {
        match self {
            AnyValue::Text(v) => Ok(v),
            other => Err(other),
        }
    }
}

impl<'slot, T> OwnRef<'slot, T> {
    /// Widens the handle to an erased, dynamically-tagged representation:
    /// the value is re-represented behind `E`'s type tag, and the resulting
    /// handle keeps the same backing-storage bound.
    pub fn unsize<E>(self) -> (r: OwnRef<'slot, E>) where E: AnyRepr<T>
        ensures
            r@ == E::erased(self@),
    {
        OwnRef::make(E::erase(self.deref_move()))
    }

    /// The checked downcast: compares the handle's runtime type tag with
    /// `U`; on a match, returns a handle over the concrete `U` at the same
    /// backing-storage bound; on a mismatch, returns the original handle
    /// unchanged — still usable, still destructible exactly once.
    pub fn downcast<U>(self) -> (r: Result<OwnRef<'slot, U>, OwnRef<'slot, T>>) where
        T: AnyRepr<U>
        ensures
            match r {
                Ok(h) => self@.wraps(h@),
                Err(h) => h@ == self@ && forall|u: U| !self@.wraps(u),
            },
    {
        match self.deref_move().try_restore() {
            Ok(u) => Ok(OwnRef::make(u)),
            Err(e) => Err(OwnRef::make(e)),
        }
    }
}

/// Downcast round-trip: widening a value and then downcasting back to its
/// concrete type yields exactly the original value — whatever the erased
/// universe, by the [`AnyRepr`] laws.
pub proof fn lemma_downcast_round_trip<U, E: AnyRepr<U>>(u: U, restored: U)
    requires
        E::erased(u).wraps(restored),
    ensures
        restored == u,
{
    E::lemma_erased_wraps(u);
    E::erased(u).lemma_wraps_unique(restored, u);
}

} // verus!
