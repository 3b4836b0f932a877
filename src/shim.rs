//! Shims for vector widths that an instruction set does not offer natively.
//!
//! `Shim2` doubles the width of any vector by holding two of them side by side; `Shim4` and
//! `Shim8` are that rule applied again. Every lane-wise operation acts on each half and keeps
//! the halves in order, so a shim behaves lane for lane like a native vector of its width.

use crate::vector::{
    map_lanes, op_defined, scalar_lanes, splat_lanes, zip_lanes, BinOp, Complex, ComplexLane, Lane, Ops,
    Signed, Vector,
};
use crate::width::{Double, Width};
use vstd::prelude::*;

pub mod token;

verus! {

/// Shim that doubles the width of a vector.
#[derive(Clone, Copy, Debug)]
pub struct Shim2<Underlying> {
    lo: Underlying,
    hi: Underlying,
}

/// Shim that quadruples the width of a vector.
pub type Shim4<Underlying> = Shim2<Shim2<Underlying>>;

/// Shim that octuples the width of a vector.
pub type Shim8<Underlying> = Shim2<Shim4<Underlying>>;

impl<U> Shim2<U> where U: Vector, U::Width: Double {
    /// Joins two vectors, `lo` supplying the first lanes and `hi` the last.
    pub fn new(lo: U, hi: U) -> (r: Self)
        ensures
            r.lanes() == lo.lanes() + hi.lanes(),
    {
        Shim2 { lo, hi }
    }

    /// Splits the shim into its two halves, first lanes first.
    pub fn halves(self) -> (r: (U, U))
        ensures
            self.lanes() == r.0.lanes() + r.1.lanes(),
    {
        (self.lo, self.hi)
    }
}

impl<U> Vector for Shim2<U> where U: Vector, U::Width: Double {
    type Scalar = U::Scalar;

    type Token = U::Token;

    type Width = <U::Width as Double>::Doubled;

    closed spec fn lanes(&self) -> Seq<U::Scalar> {
        self.lo.lanes() + self.hi.lanes()
    }

    proof fn lemma_lanes_len(&self) {
        self.lo.lemma_lanes_len();
        self.hi.lemma_lanes_len();
        U::Width::doubles();
    }

    fn width() -> (r: usize) {
        <Self::Width as Width>::value()
    }

    fn lane(&self, index: usize) -> (r: U::Scalar) {
        proof {
            self.lo.lemma_lanes_len();
            self.hi.lemma_lanes_len();
            U::Width::doubles();
        }
        let half = <U::Width as Width>::value();
        if index < half {
            self.lo.lane(index)
        } else {
            self.hi.lane(index - half)
        }
    }

    fn zeroed(token: U::Token) -> (r: Self) {
        let r = Shim2 { lo: U::zeroed(token), hi: U::zeroed(token) };
        proof {
            U::Width::doubles();
            assert(r.lanes() =~= splat_lanes(Self::Width::count(), U::Scalar::spec_zero()));
        }
        r
    }

    fn splat(token: U::Token, from: U::Scalar) -> (r: Self) {
        let r = Shim2 { lo: U::splat(token, from), hi: U::splat(token, from) };
        proof {
            U::Width::doubles();
            assert(r.lanes() =~= splat_lanes(Self::Width::count(), from));
        }
        r
    }

    fn read_at(token: U::Token, from: &[U::Scalar], at: usize) -> (r: Self) {
        proof {
            U::Width::doubles();
        }
        proof {
            assert(from@.len() == from.len());
        }
        let half = <U::Width as Width>::value();
        let r = Shim2 { lo: U::read_at(token, from, at), hi: U::read_at(token, from, at + half) };
        assert(r.lanes() =~= from@.subrange(at as int, at + Self::Width::count()));
        r
    }

    fn write_at(self, to: &mut [U::Scalar], at: usize) {
        proof {
            U::Width::doubles();
            self.lo.lemma_lanes_len();
            self.hi.lemma_lanes_len();
        }
        let ghost before = to@;
        proof {
            assert(to@.len() == to.len());
        }
        let half = <U::Width as Width>::value();
        self.lo.write_at(to, at);
        self.hi.write_at(to, at + half);
        assert(to@ =~= before.subrange(0, at as int) + self.lanes() + before.subrange(
            at + Self::Width::count(),
            before.len() as int,
        ));
    }
}

impl<U> Ops for Shim2<U> where U: Ops, U::Width: Double {
    fn apply(self, op: BinOp, rhs: Self) -> (r: Self) {
        proof {
            self.lo.lemma_lanes_len();
            self.hi.lemma_lanes_len();
            rhs.lo.lemma_lanes_len();
            rhs.hi.lemma_lanes_len();
            let n = self.lo.lanes().len() as int;
            assert forall|i: int| 0 <= i < n implies op_defined(
                op,
                self.lo.lanes()[i],
                #[trigger] rhs.lo.lanes()[i],
            ) by {
                assert(self.lanes()[i] == self.lo.lanes()[i]);
                assert(rhs.lanes()[i] == rhs.lo.lanes()[i]);
            }
            assert forall|i: int| 0 <= i < n implies op_defined(
                op,
                self.hi.lanes()[i],
                #[trigger] rhs.hi.lanes()[i],
            ) by {
                assert(self.lanes()[n + i] == self.hi.lanes()[i]);
                assert(rhs.lanes()[n + i] == rhs.hi.lanes()[i]);
            }
        }
        let r = Shim2 { lo: self.lo.apply(op, rhs.lo), hi: self.hi.apply(op, rhs.hi) };
        assert(r.lanes() =~= zip_lanes(op, self.lanes(), rhs.lanes()));
        r
    }

    fn apply_scalar(self, op: BinOp, rhs: U::Scalar) -> (r: Self) {
        proof {
            self.lo.lemma_lanes_len();
            let n = self.lo.lanes().len() as int;
            assert forall|i: int| 0 <= i < n implies op_defined(
                op,
                #[trigger] self.lo.lanes()[i],
                rhs,
            ) by {
                assert(self.lanes()[i] == self.lo.lanes()[i]);
            }
            assert forall|i: int| 0 <= i < self.hi.lanes().len() implies op_defined(
                op,
                #[trigger] self.hi.lanes()[i],
                rhs,
            ) by {
                assert(self.lanes()[n + i] == self.hi.lanes()[i]);
            }
        }
        let r = Shim2 { lo: self.lo.apply_scalar(op, rhs), hi: self.hi.apply_scalar(op, rhs) };
        assert(r.lanes() =~= scalar_lanes(op, self.lanes(), rhs));
        r
    }
}

impl<U> Signed for Shim2<U> where U: Signed, U::Width: Double {
    fn neg(self) -> (r: Self) {
        let r = Shim2 { lo: self.lo.neg(), hi: self.hi.neg() };
        assert(r.lanes() =~= map_lanes(self.lanes(), |a: U::Scalar| U::Scalar::spec_neg(a)));
        r
    }
}

impl<U> Complex for Shim2<U> where U: Complex, U::Width: Double, U::Scalar: ComplexLane {
    fn conj(self) -> (r: Self) {
        let r = Shim2 { lo: self.lo.conj(), hi: self.hi.conj() };
        assert(r.lanes() =~= map_lanes(self.lanes(), |a: U::Scalar| U::Scalar::spec_conj(a)));
        r
    }

    fn mul_i(self) -> (r: Self) {
        let r = Shim2 { lo: self.lo.mul_i(), hi: self.hi.mul_i() };
        assert(r.lanes() =~= map_lanes(self.lanes(), |a: U::Scalar| U::Scalar::spec_mul_i(a)));
        r
    }

    fn mul_neg_i(self) -> (r: Self) {
        let r = Shim2 { lo: self.lo.mul_neg_i(), hi: self.hi.mul_neg_i() };
        assert(r.lanes() =~= map_lanes(
            self.lanes(),
            |a: U::Scalar| U::Scalar::spec_mul_neg_i(a),
        ));
        r
    }
}

/// A shim is a native vector of its width: applying an operation to each half and keeping
/// the halves in order gives, lane for lane, the operation on the joined lanes. The same holds
/// of a lane-wise function of one vector.
pub proof fn lemma_shim_equivalence<S: Lane>(
    op: BinOp,
    a_lo: Seq<S>,
    a_hi: Seq<S>,
    b_lo: Seq<S>,
    b_hi: Seq<S>,
    s: S,
    f: spec_fn(S) -> S,
)
    requires
        a_lo.len() == b_lo.len(),
        a_hi.len() == b_hi.len(),
    ensures
        zip_lanes(op, a_lo, b_lo) + zip_lanes(op, a_hi, b_hi) == zip_lanes(
            op,
            a_lo + a_hi,
            b_lo + b_hi,
        ),
        scalar_lanes(op, a_lo, s) + scalar_lanes(op, a_hi, s) == scalar_lanes(op, a_lo + a_hi, s),
        map_lanes(a_lo, f) + map_lanes(a_hi, f) == map_lanes(a_lo + a_hi, f),
{
    assert(zip_lanes(op, a_lo, b_lo) + zip_lanes(op, a_hi, b_hi) =~= zip_lanes(
        op,
        a_lo + a_hi,
        b_lo + b_hi,
    ));
    assert(scalar_lanes(op, a_lo, s) + scalar_lanes(op, a_hi, s) =~= scalar_lanes(
        op,
        a_lo + a_hi,
        s,
    ));
    assert(map_lanes(a_lo, f) + map_lanes(a_hi, f) =~= map_lanes(a_lo + a_hi, f));
}

} // verus!
