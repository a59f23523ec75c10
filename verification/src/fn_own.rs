//! Call-by-value dispatch for move-only callables held in handles.
//!
//! A handle over a callable may be invoked exactly once, by value,
//! consuming it. The protocol first disarms the handle by moving the
//! callable out ([`OwnRef::deref_move`]) and then performs the call, so the
//! callable is consumed exactly once, and so is whatever it captured. Each
//! `call_ownref_N` entry states its contract in `call_requires` /
//! `call_ensures` of the concrete callable — the very predicates that
//! govern a direct call — so invoking through the handle is allowed exactly
//! when the direct call is, and yields exactly the results the direct call
//! could yield.

use vstd::prelude::*;

use crate::own::OwnRef;

verus! {

impl<'slot, F> OwnRef<'slot, F> {
    /// Invokes the held callable by value, with no arguments.
    pub fn call_ownref_0<R>(self) -> (ret: R) where F: FnOnce() -> R
        requires
            call_requires(self@, ()),
        ensures
            call_ensures(self@, (), ret),
    {
        (self.deref_move())()
    }

    /// Invokes the held callable by value, with one argument.
    pub fn call_ownref_1<A0, R>(self, a0: A0) -> (ret: R) where F: FnOnce(A0) -> R
        requires
            call_requires(self@, (a0,)),
        ensures
            call_ensures(self@, (a0,), ret),
    {
        (self.deref_move())(a0)
    }

    /// Invokes the held callable by value, with two arguments.
    pub fn call_ownref_2<A0, A1, R>(self, a0: A0, a1: A1) -> (ret: R) where F: FnOnce(A0, A1) -> R
        requires
            call_requires(self@, (a0, a1)),
        ensures
            call_ensures(self@, (a0, a1), ret),
    {
        (self.deref_move())(a0, a1)
    }

    /// Invokes the held callable by value, with three arguments — the arity
    /// bound. The bound is an ergonomic cutoff, not a semantic one: a
    /// callable of any arity can be invoked through a single
    /// tuple-argument entry such as [`OwnRef::call_ownref_1`].
    pub fn call_ownref_3<A0, A1, A2, R>(self, a0: A0, a1: A1, a2: A2) -> (ret: R) where
        F: FnOnce(A0, A1, A2) -> R
        requires
            call_requires(self@, (a0, a1, a2)),
        ensures
            call_ensures(self@, (a0, a1, a2), ret),
    {
        (self.deref_move())(a0, a1, a2)
    }
}

} // verus!
