//! The process handle store: a single-slot container holding at most one
//! live handle to the worker process.
//!
//! The slot is created empty, populated on a successful spawn, and emptied
//! exactly once by whichever caller terminates the worker. Every access goes
//! through the three invariant-preserving operations below; the raw slot is
//! never exposed.

use vstd::prelude::*;

verus! {

/// A single-slot, take-once container for the worker process handle.
///
/// `H` is the handle type supplied by the embedding shell; the store never
/// looks inside it. The abstract value of a store is the `Option<H>` it
/// currently holds.
pub struct HandleStore<H> {
    slot: Option<H>,
}

impl<H> View for HandleStore<H> {
    type V = Option<H>;

    closed spec fn view(&self) -> Option<H> {
        self.slot
    }
}

impl<H> HandleStore<H> {
    /// The empty store, as an abstract value.
    pub closed spec fn spec_empty() -> HandleStore<H> {
        HandleStore { slot: None }
    }

    /// The store holding exactly `h`, as an abstract value.
    pub closed spec fn spec_holding(h: H) -> HandleStore<H> {
        HandleStore { slot: Some(h) }
    }

    /// The empty store holds nothing.
    pub proof fn lemma_empty_view()
        ensures
            HandleStore::<H>::spec_empty()@ is None,
    {
    }

    /// A fresh store holds no handle.
    pub fn new() -> (s: Self)
        ensures
            s@ is None,
            s == HandleStore::<H>::spec_empty(),
    {
        HandleStore { slot: None }
    }

    /// Reports whether the slot is currently empty, i.e. whether a caller
    /// holding exclusive access may go on to spawn and `install`.
    pub fn try_acquire_if_empty(&self) -> (b: bool)
        ensures
            b == (self@ is None),
    {
        self.slot.is_none()
    }

    /// Puts `h` into the slot, overwriting whatever was there. Callers must
    /// only install after confirming emptiness, so that at most one live
    /// handle ever exists.
    pub fn install(&mut self, h: H)
        ensures
            final(self)@ == Some(h),
            *final(self) == HandleStore::<H>::spec_holding(h),
    {
        self.slot = Some(h);
    }

    /// Removes and returns the current handle, leaving the slot empty.
    /// Returns `None` if the slot was already empty, so a handle is handed
    /// out for termination exactly once even if two shutdown paths race.
    pub fn take(&mut self) -> (r: Option<H>)
        ensures
            r == old(self)@,
            final(self)@ is None,
            *final(self) == HandleStore::<H>::spec_empty(),
            old(self)@ is None ==> *final(self) == *old(self),
    {
        self.slot.take()
    }
}

} // verus!
