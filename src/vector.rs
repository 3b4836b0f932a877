//! Vector type interfaces.
//!
//! A vector is described by the sequence of its lanes. Every operation is stated lane by lane
//! against the arithmetic of its scalar type, which the `Lane` trait describes.

use crate::arch::Token;
use crate::width::Width;
use vstd::prelude::*;

verus! {

/// The binary lane-wise operations of a vector.
#[derive(Clone, Copy, Debug, PartialEq, Eq, Structural)]
pub enum BinOp {
    Add,
    Sub,
    Mul,
    Div,
}

/// The arithmetic of one lane: the scalar type's own operations.
pub trait Lane: Copy + Sized {
    /// The additive identity.
    spec fn spec_zero() -> Self;

    /// The multiplicative identity.
    spec fn spec_one() -> Self;

    spec fn spec_add(a: Self, b: Self) -> Self;

    spec fn spec_sub(a: Self, b: Self) -> Self;

    spec fn spec_mul(a: Self, b: Self) -> Self;

    spec fn spec_div(a: Self, b: Self) -> Self;

    spec fn spec_neg(a: Self) -> Self;

    /// Whether `a / b` is defined.
    spec fn div_defined(a: Self, b: Self) -> bool;

    fn zero() -> (r: Self)
        ensures
            r == Self::spec_zero(),
    ;

    fn one() -> (r: Self)
        ensures
            r == Self::spec_one(),
    ;

    fn add(a: Self, b: Self) -> (r: Self)
        ensures
            r == Self::spec_add(a, b),
    ;

    fn sub(a: Self, b: Self) -> (r: Self)
        ensures
            r == Self::spec_sub(a, b),
    ;

    fn mul(a: Self, b: Self) -> (r: Self)
        ensures
            r == Self::spec_mul(a, b),
    ;

    fn div(a: Self, b: Self) -> (r: Self)
        requires
            Self::div_defined(a, b),
        ensures
            r == Self::spec_div(a, b),
    ;

    fn neg(a: Self) -> (r: Self)
        ensures
            r == Self::spec_neg(a),
    ;
}

/// The arithmetic of one complex-valued lane.
pub trait ComplexLane: Lane {
    /// The complex conjugate.
    spec fn spec_conj(a: Self) -> Self;

    /// Multiplication by i.
    spec fn spec_mul_i(a: Self) -> Self;

    /// Multiplication by -i.
    spec fn spec_mul_neg_i(a: Self) -> Self;

    fn conj(a: Self) -> (r: Self)
        ensures
            r == Self::spec_conj(a),
    ;

    fn mul_i(a: Self) -> (r: Self)
        ensures
            r == Self::spec_mul_i(a),
    ;

    fn mul_neg_i(a: Self) -> (r: Self)
        ensures
            r == Self::spec_mul_neg_i(a),
    ;
}

/// `op` applied to two lanes.
pub open spec fn lane_op<S: Lane>(op: BinOp, a: S, b: S) -> S {
    match op {
        BinOp::Add => S::spec_add(a, b),
        BinOp::Sub => S::spec_sub(a, b),
        BinOp::Mul => S::spec_mul(a, b),
        BinOp::Div => S::spec_div(a, b),
    }
}

/// Whether `op` is defined on a pair of lanes: everything but division by a lane on which
/// the scalar type's division is undefined.
pub open spec fn op_defined<S: Lane>(op: BinOp, a: S, b: S) -> bool {
    op != BinOp::Div || S::div_defined(a, b)
}

/// Whether `op` is defined on every pair of lanes of `a` and `b`.
pub open spec fn zip_defined<S: Lane>(op: BinOp, a: Seq<S>, b: Seq<S>) -> bool {
    forall|i: int| 0 <= i < a.len() ==> op_defined(op, a[i], #[trigger] b[i])
}

/// Whether `op` is defined on every lane of `a` paired with `s`.
pub open spec fn scalar_defined<S: Lane>(op: BinOp, a: Seq<S>, s: S) -> bool {
    forall|i: int| 0 <= i < a.len() ==> op_defined(op, #[trigger] a[i], s)
}

/// Applies `op` to a pair of lanes, as `lane_op` states.
pub fn apply_lane<S: Lane>(op: BinOp, a: S, b: S) -> (r: S)
    requires
        op_defined(op, a, b),
    ensures
        r == lane_op(op, a, b),
{
    match op {
        BinOp::Add => S::add(a, b),
        BinOp::Sub => S::sub(a, b),
        BinOp::Mul => S::mul(a, b),
        BinOp::Div => S::div(a, b),
    }
}

/// `op` applied lane by lane to two lane sequences of equal length.
pub open spec fn zip_lanes<S: Lane>(op: BinOp, a: Seq<S>, b: Seq<S>) -> Seq<S> {
    Seq::new(a.len(), |i: int| lane_op(op, a[i], b[i]))
}

/// `op` applied to each lane and the scalar `s`, as if `s` were splatted.
pub open spec fn scalar_lanes<S: Lane>(op: BinOp, a: Seq<S>, s: S) -> Seq<S> {
    Seq::new(a.len(), |i: int| lane_op(op, a[i], s))
}

/// `f` applied to each lane.
pub open spec fn map_lanes<S>(a: Seq<S>, f: spec_fn(S) -> S) -> Seq<S> {
    Seq::new(a.len(), |i: int| f(a[i]))
}

/// Every lane set to `s`.
pub open spec fn splat_lanes<S>(n: nat, s: S) -> Seq<S> {
    Seq::new(n, |i: int| s)
}

/// The fundamental vector type: `width()` lanes of one scalar type, usable under `Token`.
pub trait Vector: Copy + Sized {
    /// The type of elements in the vector.
    type Scalar: Lane;

    /// The token that proves support for this vector on the CPU.
    type Token: Token;

    /// The number of elements in the vector.
    type Width: Width;

    /// The lanes, in order.
    spec fn lanes(&self) -> Seq<Self::Scalar>;

    /// Every vector holds exactly `Width` lanes.
    proof fn lemma_lanes_len(&self)
        ensures
            self.lanes().len() == Self::Width::count(),
    ;

    /// Returns the number of lanes.
    fn width() -> (r: usize)
        ensures
            r as nat == Self::Width::count(),
    ;

    /// Returns lane `index`.
    fn lane(&self, index: usize) -> (r: Self::Scalar)
        requires
            index < Self::Width::count(),
        ensures
            r == self.lanes()[index as int],
    ;

    /// Create a new vector with each lane containing zero.
    fn zeroed(token: Self::Token) -> (r: Self)
        ensures
            r.lanes() == splat_lanes(Self::Width::count(), Self::Scalar::spec_zero()),
    ;

    /// Create a new vector with each lane containing the provided value.
    fn splat(token: Self::Token, from: Self::Scalar) -> (r: Self)
        ensures
            r.lanes() == splat_lanes(Self::Width::count(), from),
    ;

    /// Read the `width()` scalars that start at `at`.
    fn read_at(token: Self::Token, from: &[Self::Scalar], at: usize) -> (r: Self)
        requires
            at + Self::Width::count() <= from@.len(),
        ensures
            r.lanes() == from@.subrange(at as int, at + Self::Width::count()),
    ;

    /// Write the lanes over the `width()` scalars that start at `at`, and nothing else.
    fn write_at(self, to: &mut [Self::Scalar], at: usize)
        requires
            at + Self::Width::count() <= old(to)@.len(),
        ensures
            final(to)@ == old(to)@.subrange(0, at as int) + self.lanes() + old(to)@.subrange(
                at + Self::Width::count(),
                old(to)@.len() as int,
            ),
    ;

    /// Read from the start of a slice, which must hold at least `width()` scalars.
    fn read(token: Self::Token, from: &[Self::Scalar]) -> (r: Self)
        requires
            Self::Width::count() <= from@.len(),
        ensures
            r.lanes() == from@.subrange(0, Self::Width::count() as int),
    {
        Self::read_at(token, from, 0)
    }

    /// Write to the start of a slice, which must hold at least `width()` scalars; the rest of
    /// the slice keeps its values.
    fn write(self, to: &mut [Self::Scalar])
        requires
            Self::Width::count() <= old(to)@.len(),
        ensures
            final(to)@ == self.lanes() + old(to)@.subrange(
                Self::Width::count() as int,
                old(to)@.len() as int,
            ),
    {
        let ghost before = to@;
        self.write_at(to, 0);
        assert(before.subrange(0, 0) + self.lanes() =~= self.lanes());
    }

    /// Returns the lanes, in order.
    fn to_vec(&self) -> (r: Vec<Self::Scalar>)
        ensures
            r@ == self.lanes(),
    {
        proof {
            self.lemma_lanes_len();
        }
        let w = Self::width();
        let mut r: Vec<Self::Scalar> = Vec::new();
        let mut i: usize = 0;
        while i < w
            invariant
                i <= w,
                w as nat == Self::Width::count(),
                self.lanes().len() == Self::Width::count(),
                r@ == self.lanes().subrange(0, i as int),
            decreases w - i,
        {
            r.push(self.lane(i));
            i = i + 1;
            assert(r@ =~= self.lanes().subrange(0, i as int));
        }
        assert(r@ =~= self.lanes());
        r
    }
}

/// A vector supporting lane-wise arithmetic.
pub trait Ops: Vector {
    /// `op` applied lane by lane.
    fn apply(self, op: BinOp, rhs: Self) -> (r: Self)
        requires
            zip_defined(op, self.lanes(), rhs.lanes()),
        ensures
            r.lanes() == zip_lanes(op, self.lanes(), rhs.lanes()),
    ;

    /// `op` applied to each lane and `rhs`, as if `rhs` were splatted.
    fn apply_scalar(self, op: BinOp, rhs: Self::Scalar) -> (r: Self)
        requires
            scalar_defined(op, self.lanes(), rhs),
        ensures
            r.lanes() == scalar_lanes(op, self.lanes(), rhs),
    ;

    /// Lane-wise sum.
    fn add(self, rhs: Self) -> (r: Self)
        ensures
            r.lanes() == zip_lanes(BinOp::Add, self.lanes(), rhs.lanes()),
    {
        self.apply(BinOp::Add, rhs)
    }

    /// Lane-wise difference.
    fn sub(self, rhs: Self) -> (r: Self)
        ensures
            r.lanes() == zip_lanes(BinOp::Sub, self.lanes(), rhs.lanes()),
    {
        self.apply(BinOp::Sub, rhs)
    }

    /// Lane-wise product.
    fn mul(self, rhs: Self) -> (r: Self)
        ensures
            r.lanes() == zip_lanes(BinOp::Mul, self.lanes(), rhs.lanes()),
    {
        self.apply(BinOp::Mul, rhs)
    }

    /// Lane-wise quotient.
    fn div(self, rhs: Self) -> (r: Self)
        requires
            zip_defined(BinOp::Div, self.lanes(), rhs.lanes()),
        ensures
            r.lanes() == zip_lanes(BinOp::Div, self.lanes(), rhs.lanes()),
    {
        self.apply(BinOp::Div, rhs)
    }

    /// The assigning form of `apply`: the same as `*self = self.apply(op, rhs)`.
    fn apply_assign(&mut self, op: BinOp, rhs: Self)
        requires
            zip_defined(op, old(self).lanes(), rhs.lanes()),
        ensures
            final(self).lanes() == zip_lanes(op, old(self).lanes(), rhs.lanes()),
    {
        *self = self.apply(op, rhs);
    }

    /// The assigning form of `apply_scalar`: the same as `*self = self.apply_scalar(op, rhs)`.
    fn apply_scalar_assign(&mut self, op: BinOp, rhs: Self::Scalar)
        requires
            scalar_defined(op, old(self).lanes(), rhs),
        ensures
            final(self).lanes() == scalar_lanes(op, old(self).lanes(), rhs),
    {
        *self = self.apply_scalar(op, rhs);
    }
}

/// A vector operated on with a scalar is the vector operated on with that scalar splatted.
pub proof fn lemma_scalar_is_splat<S: Lane>(op: BinOp, a: Seq<S>, s: S)
    ensures
        scalar_lanes(op, a, s) == zip_lanes(op, a, splat_lanes(a.len(), s)),
{
    assert(scalar_lanes(op, a, s) =~= zip_lanes(op, a, splat_lanes(a.len(), s)));
}

/// A vector supporting lane-wise negation.
pub trait Signed: Ops {
    fn neg(self) -> (r: Self)
        ensures
            r.lanes() == map_lanes(self.lanes(), |a: Self::Scalar| Self::Scalar::spec_neg(a)),
    ;
}

/// Complex valued vectors.
pub trait Complex: Signed where Self::Scalar: ComplexLane {
    /// Conjugate.
    fn conj(self) -> (r: Self)
        ensures
            r.lanes() == map_lanes(self.lanes(), |a: Self::Scalar| Self::Scalar::spec_conj(a)),
    ;

    /// Multiply by i.
    fn mul_i(self) -> (r: Self)
        ensures
            r.lanes() == map_lanes(self.lanes(), |a: Self::Scalar| Self::Scalar::spec_mul_i(a)),
    ;

    /// Multiply by -i.
    fn mul_neg_i(self) -> (r: Self)
        ensures
            r.lanes() == map_lanes(
                self.lanes(),
                |a: Self::Scalar| Self::Scalar::spec_mul_neg_i(a),
            ),
    ;
}

} // verus!
