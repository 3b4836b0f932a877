//! Shim that lets a vector made for a weaker token be used under a stronger one.

use crate::arch::Implies;
use crate::vector::{
    scalar_lanes, zip_lanes, BinOp, Complex, ComplexLane, Ops, Signed, Vector,
};
use vstd::prelude::*;

verus! {

/// A vector of type `Underlying` used under token `Token`, which implies the underlying
/// vector's own token. Every operation converts the token and defers to `Underlying`.
#[derive(Clone, Copy, Debug)]
pub struct ShimToken<Underlying, Token> {
    inner: Underlying,
    token: Token,
}

impl<U, T> ShimToken<U, T> where U: Vector, T: Implies<U::Token> {
    /// The wrapped vector.
    pub closed spec fn underlying(&self) -> U {
        self.inner
    }

    /// Wraps `inner` for use under `token`.
    pub fn new(token: T, inner: U) -> (r: Self)
        ensures
            r.underlying() == inner,
            r.lanes() == inner.lanes(),
    {
        ShimToken { inner, token }
    }

    /// Returns the underlying vector.
    pub fn into_inner(self) -> (r: U)
        ensures
            r == self.underlying(),
            r.lanes() == self.lanes(),
    {
        self.inner
    }
}

/// Operating through the token shim is indistinguishable from operating on the underlying
/// vectors: the shim has the lanes of the vector it wraps, so each operation's result has, lane
/// for lane, the value that the underlying operation gives.
pub proof fn lemma_token_shim_transparent<U, T>(
    a: ShimToken<U, T>,
    b: ShimToken<U, T>,
    op: BinOp,
    s: U::Scalar,
) where U: Vector, T: Implies<U::Token>
    ensures
        a.lanes() == a.underlying().lanes(),
        zip_lanes(op, a.lanes(), b.lanes()) == zip_lanes(
            op,
            a.underlying().lanes(),
            b.underlying().lanes(),
        ),
        scalar_lanes(op, a.lanes(), s) == scalar_lanes(op, a.underlying().lanes(), s),
{
}

impl<U, T> Vector for ShimToken<U, T> where U: Vector, T: Implies<U::Token> {
    type Scalar = U::Scalar;

    type Token = T;

    type Width = U::Width;

    closed spec fn lanes(&self) -> Seq<U::Scalar> {
        self.inner.lanes()
    }

    proof fn lemma_lanes_len(&self) {
        self.inner.lemma_lanes_len();
    }

    fn width() -> (r: usize) {
        U::width()
    }

    fn lane(&self, index: usize) -> (r: U::Scalar) {
        self.inner.lane(index)
    }

    fn zeroed(token: T) -> (r: Self) {
        ShimToken { inner: U::zeroed(token.weaken()), token }
    }

    fn splat(token: T, from: U::Scalar) -> (r: Self) {
        ShimToken { inner: U::splat(token.weaken(), from), token }
    }

    fn read_at(token: T, from: &[U::Scalar], at: usize) -> (r: Self) {
        ShimToken { inner: U::read_at(token.weaken(), from, at), token }
    }

    fn write_at(self, to: &mut [U::Scalar], at: usize) {
        self.inner.write_at(to, at);
    }
}

impl<U, T> Ops for ShimToken<U, T> where U: Ops, T: Implies<U::Token> {
    fn apply(self, op: BinOp, rhs: Self) -> (r: Self) {
        ShimToken { inner: self.inner.apply(op, rhs.inner), token: self.token }
    }

    fn apply_scalar(self, op: BinOp, rhs: U::Scalar) -> (r: Self) {
        ShimToken { inner: self.inner.apply_scalar(op, rhs), token: self.token }
    }
}

impl<U, T> Signed for ShimToken<U, T> where U: Signed, T: Implies<U::Token> {
    fn neg(self) -> (r: Self) {
        ShimToken { inner: self.inner.neg(), token: self.token }
    }
}

impl<U, T> Complex for ShimToken<U, T> where
    U: Complex,
    T: Implies<U::Token>,
    U::Scalar: ComplexLane,
 {
    fn conj(self) -> (r: Self) {
        ShimToken { inner: self.inner.conj(), token: self.token }
    }

    fn mul_i(self) -> (r: Self) {
        ShimToken { inner: self.inner.mul_i(), token: self.token }
    }

    fn mul_neg_i(self) -> (r: Self) {
        ShimToken { inner: self.inner.mul_neg_i(), token: self.token }
    }
}

} // verus!
