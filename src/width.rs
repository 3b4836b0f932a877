//! Types indicating widths of vectors.

use vstd::prelude::*;

verus! {

/// Indicates the width of a vector.
pub trait Width {
    /// The number of lanes.
    spec fn count() -> nat;

    /// Returns the number of lanes.
    fn value() -> (r: usize)
        ensures
            r as nat == Self::count(),
            1 <= r <= 8,
    ;
}

/// Indicates a vector contains 1 lane.
pub struct W1;

/// Indicates a vector contains 2 lanes.
pub struct W2;

/// Indicates a vector contains 4 lanes.
pub struct W4;

/// Indicates a vector contains 8 lanes.
pub struct W8;

impl Width for W1 {
    open spec fn count() -> nat {
        1
    }

    fn value() -> (r: usize) {
        1
    }
}

impl Width for W2 {
    open spec fn count() -> nat {
        2
    }

    fn value() -> (r: usize) {
        2
    }
}

impl Width for W4 {
    open spec fn count() -> nat {
        4
    }

    fn value() -> (r: usize) {
        4
    }
}

impl Width for W8 {
    open spec fn count() -> nat {
        8
    }

    fn value() -> (r: usize) {
        8
    }
}

/// Determines the doubled width of a vector.
pub trait Double: Width {
    type Doubled: Width;

    /// The doubled width holds twice as many lanes.
    proof fn doubles()
        ensures
            Self::Doubled::count() == 2 * Self::count(),
    ;
}

impl Double for W1 {
    type Doubled = W2;

    proof fn doubles() {
    }
}

impl Double for W2 {
    type Doubled = W4;

    proof fn doubles() {
    }
}

impl Double for W4 {
    type Doubled = W8;

    proof fn doubles() {
    }
}

} // verus!
