//! Extensions for scalars: the vectors of each width that a token offers for a lane type.

use crate::arch::{Generic, Implies, Token};
use crate::generic::Single;
use crate::shim::token::ShimToken;
use crate::shim::{Shim2, Shim4, Shim8};
use crate::vector::{splat_lanes, Lane, Ops, Vector};
use crate::width::{Width, W1, W2, W4, W8};
use vstd::prelude::*;

verus! {

/// Indicates the widest native vector for a scalar under a token.
pub trait Native<T: Token> {
    type Width: Width;
}

/// The portable lanes of this library have one-lane native vectors under every token.
impl<S: Lane, T: Implies<Generic>> Native<T> for S {
    type Width = W1;
}

/// A scalar value, supporting all vector widths under token `T`.
pub trait ScalarExt<T: Token>: Lane {
    /// Vector with 1 lane.
    type Vector1: Ops<Scalar = Self, Token = T, Width = W1>;

    /// Vector with 2 lanes.
    type Vector2: Ops<Scalar = Self, Token = T, Width = W2>;

    /// Vector with 4 lanes.
    type Vector4: Ops<Scalar = Self, Token = T, Width = W4>;

    /// Vector with 8 lanes.
    type Vector8: Ops<Scalar = Self, Token = T, Width = W8>;

    /// Create a vector with 1 lane set to zero.
    fn zeroed1(token: T) -> (r: Self::Vector1)
        ensures
            r.lanes() == splat_lanes(1, Self::spec_zero()),
    {
        proof {
            assert(<Self::Vector1 as Vector>::Width::count() == 1);
        }
        Self::Vector1::zeroed(token)
    }

    /// Create a vector with 2 lanes set to zero.
    fn zeroed2(token: T) -> (r: Self::Vector2)
        ensures
            r.lanes() == splat_lanes(2, Self::spec_zero()),
    {
        proof {
            assert(<Self::Vector2 as Vector>::Width::count() == 2);
        }
        Self::Vector2::zeroed(token)
    }

    /// Create a vector with 4 lanes set to zero.
    fn zeroed4(token: T) -> (r: Self::Vector4)
        ensures
            r.lanes() == splat_lanes(4, Self::spec_zero()),
    {
        proof {
            assert(<Self::Vector4 as Vector>::Width::count() == 4);
        }
        Self::Vector4::zeroed(token)
    }

    /// Create a vector with 8 lanes set to zero.
    fn zeroed8(token: T) -> (r: Self::Vector8)
        ensures
            r.lanes() == splat_lanes(8, Self::spec_zero()),
    {
        proof {
            assert(<Self::Vector8 as Vector>::Width::count() == 8);
        }
        Self::Vector8::zeroed(token)
    }

    /// Splat a scalar to 1 lane.
    fn splat1(self, token: T) -> (r: Self::Vector1)
        ensures
            r.lanes() == splat_lanes(1, self),
    {
        proof {
            assert(<Self::Vector1 as Vector>::Width::count() == 1);
        }
        Self::Vector1::splat(token, self)
    }

    /// Splat a scalar to 2 lanes.
    fn splat2(self, token: T) -> (r: Self::Vector2)
        ensures
            r.lanes() == splat_lanes(2, self),
    {
        proof {
            assert(<Self::Vector2 as Vector>::Width::count() == 2);
        }
        Self::Vector2::splat(token, self)
    }

    /// Splat a scalar to 4 lanes.
    fn splat4(self, token: T) -> (r: Self::Vector4)
        ensures
            r.lanes() == splat_lanes(4, self),
    {
        proof {
            assert(<Self::Vector4 as Vector>::Width::count() == 4);
        }
        Self::Vector4::splat(token, self)
    }

    /// Splat a scalar to 8 lanes.
    fn splat8(self, token: T) -> (r: Self::Vector8)
        ensures
            r.lanes() == splat_lanes(8, self),
    {
        proof {
            assert(<Self::Vector8 as Vector>::Width::count() == 8);
        }
        Self::Vector8::splat(token, self)
    }
}

/// Under any token, the portable one-lane vector serves one lane, and shims of it serve the
/// wider widths.
impl<S: Lane, T: Implies<Generic>> ScalarExt<T> for S {
    type Vector1 = ShimToken<Single<S>, T>;

    type Vector2 = Shim2<ShimToken<Single<S>, T>>;

    type Vector4 = Shim4<ShimToken<Single<S>, T>>;

    type Vector8 = Shim8<ShimToken<Single<S>, T>>;
}

} // verus!
