//! Alignment helpers.

use vstd::prelude::*;

verus! {

/// A value aligned to another type's alignment.
///
/// The zero-length array of `AlignTo` takes no space but gives the whole value the alignment
/// of `AlignTo`.
pub struct Aligned<AlignTo, T> {
    alignment: [AlignTo; 0],
    value: T,
}

impl<AlignTo, T> Aligned<AlignTo, T> {
    /// The wrapped value.
    pub closed spec fn value(&self) -> T {
        self.value
    }

    /// Wraps `value`.
    pub fn new(value: T) -> (r: Self)
        ensures
            r.value() == value,
    {
        Aligned { alignment: [], value }
    }

    /// Returns a reference to the wrapped value.
    pub fn get(&self) -> (r: &T)
        ensures
            *r == self.value(),
    {
        &self.value
    }

    /// Returns a mutable reference to the wrapped value.
    pub fn get_mut(&mut self) -> (r: &mut T)
        ensures
            *r == old(self).value(),
            final(self).value() == *final(r),
    {
        &mut self.value
    }

    /// Unwraps the value.
    pub fn into_inner(self) -> (r: T)
        ensures
            r == self.value(),
    {
        self.value
    }
}

} // verus!
