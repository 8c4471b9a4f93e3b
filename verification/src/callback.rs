//! A single-slot registry for the callback that intercepted calls invoke.
//!
//! The registry holds at most one active callback value. `set` replaces the
//! active callback with a new one as a whole value; an observer therefore
//! sees either the previous callback in full or the new one in full, never a
//! partially replaced value.

use vstd::prelude::*;

verus! {

/// Slot holding at most one active callback, replaceable at runtime.
pub struct CallbackRegistry<C> {
    slot: Option<C>,
}

impl<C> CallbackRegistry<C> {
    /// The currently active callback, if one is set.
    pub closed spec fn spec_current(self) -> Option<C> {
        self.slot
    }

    /// The registry after `set(callback)`: the slot holds exactly the new
    /// callback, whole.
    pub closed spec fn spec_set(self, callback: C) -> Self {
        CallbackRegistry { slot: Some(callback) }
    }

    /// A fresh registry with no active callback.
    pub fn new() -> (r: Self)
        ensures
            r.spec_current() is None,
    {
        CallbackRegistry { slot: None }
    }

    /// Replaces the active callback. The new value is published as a whole:
    /// afterwards the slot holds exactly `callback`.
    pub fn set(&mut self, callback: C)
        ensures
            *final(self) == old(self).spec_set(callback),
            final(self).spec_current() == Some(callback),
    {
        self.slot = Some(callback);
    }

    /// Observes the active callback: the whole currently-set value, or
    /// nothing if none is set.
    pub fn current(&self) -> (r: &Option<C>)
        ensures
            *r == self.spec_current(),
    {
        &self.slot
    }

    /// Whether a callback is currently set.
    pub fn is_set(&self) -> (r: bool)
        ensures
            r == (self.spec_current() is Some),
    {
        self.slot.is_some()
    }
}

/// Law: replacing the callback publishes whole values. After `set(cb1)` then
/// `set(cb2)`, an observation yields the newer callback in full — in
/// particular it is one of the two set values entire, never a mixture of
/// both.
pub proof fn lemma_replacement_observes_whole_values<C>(r0: CallbackRegistry<C>, cb1: C, cb2: C)
    ensures
        r0.spec_set(cb1).spec_set(cb2).spec_current() == Some(cb2),
        r0.spec_set(cb1).spec_set(cb2).spec_current() == Some(cb1) || r0.spec_set(cb1).spec_set(
            cb2,
        ).spec_current() == Some(cb2),
{
}

} // verus!
