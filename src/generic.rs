//! The portable one-lane vector, usable with the `Generic` token on any machine.

use crate::arch::Generic;
use crate::vector::{
    apply_lane, map_lanes, scalar_lanes, splat_lanes, zip_lanes, BinOp, Complex,
    ComplexLane, Lane, Ops, Signed, Vector,
};
use crate::width::{Width, W1};
use vstd::prelude::*;

verus! {

/// A portable vector of one lane.
#[derive(Clone, Copy, Debug)]
pub struct Single<S> {
    value: S,
}

impl<S: Lane> Vector for Single<S> {
    type Scalar = S;

    type Token = Generic;

    type Width = W1;

    closed spec fn lanes(&self) -> Seq<S> {
        seq![self.value]
    }

    proof fn lemma_lanes_len(&self) {
        assert(<Self as Vector>::Width::count() == 1);
    }

    fn width() -> (r: usize) {
        1
    }

    fn lane(&self, index: usize) -> (r: S) {
        self.value
    }

    fn zeroed(token: Generic) -> (r: Self) {
        let r = Single { value: S::zero() };
        assert(r.lanes() =~= splat_lanes(1, S::spec_zero()));
        r
    }

    fn splat(token: Generic, from: S) -> (r: Self) {
        let r = Single { value: from };
        assert(r.lanes() =~= splat_lanes(1, from));
        r
    }

    fn read_at(token: Generic, from: &[S], at: usize) -> (r: Self) {
        let r = Single { value: from[at] };
        assert(r.lanes() =~= from@.subrange(at as int, at + 1));
        r
    }

    fn write_at(self, to: &mut [S], at: usize) {
        let ghost before = to@;
        to[at] = self.value;
        assert(to@ =~= before.subrange(0, at as int) + self.lanes() + before.subrange(
            at + 1,
            before.len() as int,
        ));
    }
}

impl<S: Lane> Ops for Single<S> {
    fn apply(self, op: BinOp, rhs: Self) -> (r: Self) {
        assert(self.lanes()[0] == self.value && rhs.lanes()[0] == rhs.value);
        let r = Single { value: apply_lane(op, self.value, rhs.value) };
        assert(r.lanes() =~= zip_lanes(op, self.lanes(), rhs.lanes()));
        r
    }

    fn apply_scalar(self, op: BinOp, rhs: S) -> (r: Self) {
        assert(self.lanes()[0] == self.value);
        let r = Single { value: apply_lane(op, self.value, rhs) };
        assert(r.lanes() =~= scalar_lanes(op, self.lanes(), rhs));
        r
    }
}

impl<S: Lane> Signed for Single<S> {
    fn neg(self) -> (r: Self) {
        let r = Single { value: S::neg(self.value) };
        assert(r.lanes() =~= map_lanes(self.lanes(), |a: S| S::spec_neg(a)));
        r
    }
}

impl<S: ComplexLane> Complex for Single<S> {
    fn conj(self) -> (r: Self) {
        let r = Single { value: S::conj(self.value) };
        assert(r.lanes() =~= map_lanes(self.lanes(), |a: S| S::spec_conj(a)));
        r
    }

    fn mul_i(self) -> (r: Self) {
        let r = Single { value: S::mul_i(self.value) };
        assert(r.lanes() =~= map_lanes(self.lanes(), |a: S| S::spec_mul_i(a)));
        r
    }

    fn mul_neg_i(self) -> (r: Self) {
        let r = Single { value: S::mul_neg_i(self.value) };
        assert(r.lanes() =~= map_lanes(self.lanes(), |a: S| S::spec_mul_neg_i(a)));
        r
    }
}

} // verus!
