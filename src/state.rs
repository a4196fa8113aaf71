//! State shared between a plugin and its callbacks.
use vstd::prelude::*;

use crate::NoSendSync;

verus! {

/// State data kept for a plugin, reached through one owner.
pub struct StateData<T> {
    internal: T,
    _phantom: NoSendSync,
}

impl<T> StateData<T> {
    pub closed spec fn spec_value(&self) -> T {
        self.internal
    }

    /// Wraps `internal`.
    pub fn new(internal: T) -> (r: Self)
        ensures
            r.spec_value() == internal,
    {
        StateData { internal, _phantom: core::marker::PhantomData }
    }

    /// The state.
    pub fn get(&self) -> (r: &T)
        ensures
            *r == self.spec_value(),
    {
        &self.internal
    }

    /// The state, for changing.
    pub fn get_mut(&mut self) -> (r: &mut T)
        ensures
            *r == old(self).spec_value(),
            final(self).spec_value() == *final(r),
    {
        &mut self.internal
    }
}

} // verus!
