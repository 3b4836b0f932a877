//! The lane types this library implements: signed integers with the wrapping arithmetic of
//! SIMD integer lanes, and complex numbers over them. Integer division truncates toward zero
//! and is defined only where it neither divides by zero nor overflows.

use crate::reduce::is_commutative_monoid;
use crate::vector::{BinOp, ComplexLane, Lane};
use vstd::prelude::*;

verus! {

impl Lane for i32 {
    open spec fn spec_zero() -> i32 {
        0
    }

    open spec fn spec_one() -> i32 {
        1
    }

    open spec fn spec_add(a: i32, b: i32) -> i32 {
        a.wrapping_add(b)
    }

    open spec fn spec_sub(a: i32, b: i32) -> i32 {
        a.wrapping_sub(b)
    }

    open spec fn spec_mul(a: i32, b: i32) -> i32 {
        a.wrapping_mul(b)
    }

    open spec fn spec_div(a: i32, b: i32) -> i32 {
        a.checked_div(b).unwrap()
    }

    open spec fn spec_neg(a: i32) -> i32 {
        0i32.wrapping_sub(a)
    }

    open spec fn div_defined(a: i32, b: i32) -> bool {
        a.checked_div(b).is_some()
    }

    fn zero() -> (r: i32) {
        0
    }

    fn one() -> (r: i32) {
        1
    }

    fn add(a: i32, b: i32) -> (r: i32) {
        a.wrapping_add(b)
    }

    fn sub(a: i32, b: i32) -> (r: i32) {
        a.wrapping_sub(b)
    }

    fn mul(a: i32, b: i32) -> (r: i32) {
        a.wrapping_mul(b)
    }

    fn div(a: i32, b: i32) -> (r: i32) {
        a.checked_div(b).unwrap()
    }

    fn neg(a: i32) -> (r: i32) {
        0i32.wrapping_sub(a)
    }
}

impl Lane for i64 {
    open spec fn spec_zero() -> i64 {
        0
    }

    open spec fn spec_one() -> i64 {
        1
    }

    open spec fn spec_add(a: i64, b: i64) -> i64 {
        a.wrapping_add(b)
    }

    open spec fn spec_sub(a: i64, b: i64) -> i64 {
        a.wrapping_sub(b)
    }

    open spec fn spec_mul(a: i64, b: i64) -> i64 {
        a.wrapping_mul(b)
    }

    open spec fn spec_div(a: i64, b: i64) -> i64 {
        a.checked_div(b).unwrap()
    }

    open spec fn spec_neg(a: i64) -> i64 {
        0i64.wrapping_sub(a)
    }

    open spec fn div_defined(a: i64, b: i64) -> bool {
        a.checked_div(b).is_some()
    }

    fn zero() -> (r: i64) {
        0
    }

    fn one() -> (r: i64) {
        1
    }

    fn add(a: i64, b: i64) -> (r: i64) {
        a.wrapping_add(b)
    }

    fn sub(a: i64, b: i64) -> (r: i64) {
        a.wrapping_sub(b)
    }

    fn mul(a: i64, b: i64) -> (r: i64) {
        a.wrapping_mul(b)
    }

    fn div(a: i64, b: i64) -> (r: i64) {
        a.checked_div(b).unwrap()
    }

    fn neg(a: i64) -> (r: i64) {
        0i64.wrapping_sub(a)
    }
}

/// A complex number with `i32` parts, each part wrapping like an `i32` lane.
#[derive(Clone, Copy, Debug, PartialEq, Eq, Structural)]
pub struct GaussianI32 {
    pub re: i32,
    pub im: i32,
}

impl GaussianI32 {
    /// The number `re + im i`.
    pub fn new(re: i32, im: i32) -> (r: GaussianI32)
        ensures
            r.re == re,
            r.im == im,
    {
        GaussianI32 { re, im }
    }
}

/// Complex lanes add, subtract, multiply and negate; they have no division, since the
/// quotient of two of them is in general not one of them.
impl Lane for GaussianI32 {
    open spec fn spec_zero() -> GaussianI32 {
        GaussianI32 { re: 0, im: 0 }
    }

    open spec fn spec_one() -> GaussianI32 {
        GaussianI32 { re: 1, im: 0 }
    }

    open spec fn spec_add(a: GaussianI32, b: GaussianI32) -> GaussianI32 {
        GaussianI32 { re: a.re.wrapping_add(b.re), im: a.im.wrapping_add(b.im) }
    }

    open spec fn spec_sub(a: GaussianI32, b: GaussianI32) -> GaussianI32 {
        GaussianI32 { re: a.re.wrapping_sub(b.re), im: a.im.wrapping_sub(b.im) }
    }

    open spec fn spec_mul(a: GaussianI32, b: GaussianI32) -> GaussianI32 {
        GaussianI32 {
            re: a.re.wrapping_mul(b.re).wrapping_sub(a.im.wrapping_mul(b.im)),
            im: a.re.wrapping_mul(b.im).wrapping_add(a.im.wrapping_mul(b.re)),
        }
    }

    open spec fn spec_div(a: GaussianI32, b: GaussianI32) -> GaussianI32 {
        GaussianI32 { re: 0, im: 0 }
    }

    open spec fn spec_neg(a: GaussianI32) -> GaussianI32 {
        GaussianI32 { re: 0i32.wrapping_sub(a.re), im: 0i32.wrapping_sub(a.im) }
    }

    open spec fn div_defined(a: GaussianI32, b: GaussianI32) -> bool {
        false
    }

    fn zero() -> (r: GaussianI32) {
        GaussianI32 { re: 0, im: 0 }
    }

    fn one() -> (r: GaussianI32) {
        GaussianI32 { re: 1, im: 0 }
    }

    fn add(a: GaussianI32, b: GaussianI32) -> (r: GaussianI32) {
        GaussianI32 { re: a.re.wrapping_add(b.re), im: a.im.wrapping_add(b.im) }
    }

    fn sub(a: GaussianI32, b: GaussianI32) -> (r: GaussianI32) {
        GaussianI32 { re: a.re.wrapping_sub(b.re), im: a.im.wrapping_sub(b.im) }
    }

    fn mul(a: GaussianI32, b: GaussianI32) -> (r: GaussianI32) {
        GaussianI32 {
            re: a.re.wrapping_mul(b.re).wrapping_sub(a.im.wrapping_mul(b.im)),
            im: a.re.wrapping_mul(b.im).wrapping_add(a.im.wrapping_mul(b.re)),
        }
    }

    fn div(a: GaussianI32, b: GaussianI32) -> (r: GaussianI32) {
        GaussianI32 { re: 0, im: 0 }
    }

    fn neg(a: GaussianI32) -> (r: GaussianI32) {
        GaussianI32 { re: 0i32.wrapping_sub(a.re), im: 0i32.wrapping_sub(a.im) }
    }
}

impl ComplexLane for GaussianI32 {
    open spec fn spec_conj(a: GaussianI32) -> GaussianI32 {
        GaussianI32 { re: a.re, im: 0i32.wrapping_sub(a.im) }
    }

    open spec fn spec_mul_i(a: GaussianI32) -> GaussianI32 {
        GaussianI32 { re: 0i32.wrapping_sub(a.im), im: a.re }
    }

    open spec fn spec_mul_neg_i(a: GaussianI32) -> GaussianI32 {
        GaussianI32 { re: a.im, im: 0i32.wrapping_sub(a.re) }
    }

    fn conj(a: GaussianI32) -> (r: GaussianI32) {
        GaussianI32 { re: a.re, im: 0i32.wrapping_sub(a.im) }
    }

    fn mul_i(a: GaussianI32) -> (r: GaussianI32) {
        GaussianI32 { re: 0i32.wrapping_sub(a.im), im: a.re }
    }

    fn mul_neg_i(a: GaussianI32) -> (r: GaussianI32) {
        GaussianI32 { re: a.im, im: 0i32.wrapping_sub(a.re) }
    }
}

/// Wrapping addition of `i32` lanes is associative and commutative with identity zero, so
/// summing `i32` vectors folds all their lanes in order.
pub proof fn lemma_i32_sum_is_commutative_monoid()
    ensures
        is_commutative_monoid(BinOp::Add, 0i32),
{
}

/// Wrapping addition of `i64` lanes is associative and commutative with identity zero, so
/// summing `i64` vectors folds all their lanes in order.
pub proof fn lemma_i64_sum_is_commutative_monoid()
    ensures
        is_commutative_monoid(BinOp::Add, 0i64),
{
}

} // verus!
