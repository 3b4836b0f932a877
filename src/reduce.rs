//! Reductions over sequences of vectors.
//!
//! A reduction first combines the vectors lane by lane, left to right, and then folds the
//! lanes of the result, left to right, starting from the operation's identity. Reducing no
//! vectors at all gives that identity.

use crate::slice::flatten;
use crate::vector::{apply_lane, lane_op, zip_lanes, BinOp, Lane, Ops, Vector};
use crate::width::Width;
use vstd::calc;
use vstd::prelude::*;

verus! {

/// The lanes of each vector.
pub open spec fn lanes_of<V: Vector>(vectors: Seq<V>) -> Seq<Seq<V::Scalar>> {
    vectors.map_values(|v: V| v.lanes())
}

/// `op` applied lane by lane across `rows`, left to right; empty when there are no rows.
pub open spec fn accumulate<S: Lane>(op: BinOp, rows: Seq<Seq<S>>) -> Seq<S>
    decreases rows.len(),
{
    if rows.len() == 0 {
        Seq::empty()
    } else if rows.len() == 1 {
        rows[0]
    } else {
        zip_lanes(op, accumulate(op, rows.drop_last()), rows.last())
    }
}

/// `op` folded over `lanes`, left to right, starting from `init`.
pub open spec fn fold_lanes<S: Lane>(op: BinOp, init: S, lanes: Seq<S>) -> S
    decreases lanes.len(),
{
    if lanes.len() == 0 {
        init
    } else {
        lane_op(op, fold_lanes(op, init, lanes.drop_last()), lanes.last())
    }
}

/// Combines `vectors` lane by lane with `op`, left to right; `None` when there are none.
fn reduce_vectors<V: Ops>(op: BinOp, vectors: &[V]) -> (r: Option<V>)
    requires
        op != BinOp::Div,
    ensures
        vectors@.len() == 0 <==> r is None,
        r matches Some(v) ==> v.lanes() == accumulate(op, lanes_of(vectors@)),
{
    if vectors.len() == 0 {
        return None;
    }
    let mut acc = vectors[0];
    let mut i: usize = 1;
    assert(lanes_of(vectors@.subrange(0, 1)) =~= seq![vectors@[0].lanes()]);
    while i < vectors.len()
        invariant
            1 <= i <= vectors@.len(),
            op != BinOp::Div,
            acc.lanes() == accumulate(op, lanes_of(vectors@.subrange(0, i as int))),
        decreases vectors@.len() - i,
    {
        let next = vectors[i];
        acc = acc.apply(op, next);
        proof {
            let rows = lanes_of(vectors@.subrange(0, i + 1));
            assert(rows.drop_last() =~= lanes_of(vectors@.subrange(0, i as int)));
            assert(rows.last() == next.lanes());
        }
        i = i + 1;
    }
    assert(vectors@.subrange(0, vectors@.len() as int) =~= vectors@);
    Some(acc)
}

/// Folds the lanes of `v` with `op`, left to right, starting from `init`.
fn fold_vector<V: Vector>(op: BinOp, init: V::Scalar, v: &V) -> (r: V::Scalar)
    requires
        op != BinOp::Div,
    ensures
        r == fold_lanes(op, init, v.lanes()),
{
    proof {
        v.lemma_lanes_len();
    }
    let w = <V::Width as Width>::value();
    let mut r = init;
    let mut j: usize = 0;
    while j < w
        invariant
            j <= w,
            op != BinOp::Div,
            w == v.lanes().len(),
            w as nat == V::Width::count(),
            r == fold_lanes(op, init, v.lanes().subrange(0, j as int)),
        decreases w - j,
    {
        let x = v.lane(j);
        proof {
            let lanes = v.lanes().subrange(0, j + 1);
            assert(lanes.drop_last() =~= v.lanes().subrange(0, j as int));
        }
        r = apply_lane(op, r, x);
        j = j + 1;
    }
    assert(v.lanes().subrange(0, w as int) =~= v.lanes());
    r
}

/// The lane-wise sum of `vectors`, or `None` when there are none.
pub fn sum_vectors<V: Ops>(vectors: &[V]) -> (r: Option<V>)
    ensures
        vectors@.len() == 0 <==> r is None,
        r matches Some(v) ==> v.lanes() == accumulate(BinOp::Add, lanes_of(vectors@)),
{
    reduce_vectors(BinOp::Add, vectors)
}

/// The lane-wise product of `vectors`, or `None` when there are none.
pub fn product_vectors<V: Ops>(vectors: &[V]) -> (r: Option<V>)
    ensures
        vectors@.len() == 0 <==> r is None,
        r matches Some(v) ==> v.lanes() == accumulate(BinOp::Mul, lanes_of(vectors@)),
{
    reduce_vectors(BinOp::Mul, vectors)
}

/// The sum of every lane of every vector: zero when there are no vectors.
pub fn sum<V: Ops>(vectors: &[V]) -> (r: V::Scalar)
    ensures
        r == fold_lanes(
            BinOp::Add,
            V::Scalar::spec_zero(),
            accumulate(BinOp::Add, lanes_of(vectors@)),
        ),
{
    match sum_vectors(vectors) {
        Some(v) => fold_vector(BinOp::Add, V::Scalar::zero(), &v),
        None => V::Scalar::zero(),
    }
}

/// The product of every lane of every vector: one when there are no vectors.
pub fn product<V: Ops>(vectors: &[V]) -> (r: V::Scalar)
    ensures
        r == fold_lanes(
            BinOp::Mul,
            V::Scalar::spec_one(),
            accumulate(BinOp::Mul, lanes_of(vectors@)),
        ),
{
    match product_vectors(vectors) {
        Some(v) => fold_vector(BinOp::Mul, V::Scalar::one(), &v),
        None => V::Scalar::one(),
    }
}

/// Reducing no vectors gives the operation's identity: zero for a sum, one for a product.
pub proof fn lemma_empty_reduction<S: Lane>()
    ensures
        fold_lanes(BinOp::Add, S::spec_zero(), accumulate(BinOp::Add, Seq::<Seq<S>>::empty()))
            == S::spec_zero(),
        fold_lanes(BinOp::Mul, S::spec_one(), accumulate(BinOp::Mul, Seq::<Seq<S>>::empty()))
            == S::spec_one(),
{
}

/// `op` is associative and commutative on the lanes of `S`, with identity `id`.
pub open spec fn is_commutative_monoid<S: Lane>(op: BinOp, id: S) -> bool {
    &&& forall|a: S, b: S, c: S|
        #[trigger] lane_op(op, lane_op(op, a, b), c) == lane_op(op, a, lane_op(op, b, c))
    &&& forall|a: S, b: S| #[trigger] lane_op(op, a, b) == lane_op(op, b, a)
    &&& forall|a: S| #[trigger] lane_op(op, id, a) == a
}

/// The rows joined one after another.
pub open spec fn concat_rows<S>(rows: Seq<Seq<S>>) -> Seq<S>
    decreases rows.len(),
{
    if rows.len() == 0 {
        Seq::empty()
    } else {
        concat_rows(rows.drop_last()) + rows.last()
    }
}

proof fn lemma_accumulate_len<S: Lane>(op: BinOp, rows: Seq<Seq<S>>, n: nat)
    requires
        rows.len() >= 1,
        forall|i: int| 0 <= i < rows.len() ==> (#[trigger] rows[i]).len() == n,
    ensures
        accumulate(op, rows).len() == n,
    decreases rows.len(),
{
    if rows.len() > 1 {
        lemma_accumulate_len(op, rows.drop_last(), n);
    }
}

proof fn lemma_fold_concat<S: Lane>(op: BinOp, id: S, x: Seq<S>, y: Seq<S>)
    requires
        is_commutative_monoid(op, id),
    ensures
        fold_lanes(op, id, x + y) == lane_op(op, fold_lanes(op, id, x), fold_lanes(op, id, y)),
    decreases y.len(),
{
    let fx = fold_lanes(op, id, x);
    if y.len() == 0 {
        assert(x + y =~= x);
        assert(lane_op(op, fx, id) == lane_op(op, id, fx));
    } else {
        let y2 = y.drop_last();
        assert((x + y).drop_last() =~= x + y2);
        assert((x + y).last() == y.last());
        lemma_fold_concat(op, id, x, y2);
        let fy2 = fold_lanes(op, id, y2);
        assert(lane_op(op, lane_op(op, fx, fy2), y.last()) == lane_op(
            op,
            fx,
            lane_op(op, fy2, y.last()),
        ));
    }
}

proof fn lemma_fold_zip<S: Lane>(op: BinOp, id: S, a: Seq<S>, b: Seq<S>)
    requires
        is_commutative_monoid(op, id),
        a.len() == b.len(),
    ensures
        fold_lanes(op, id, zip_lanes(op, a, b)) == lane_op(
            op,
            fold_lanes(op, id, a),
            fold_lanes(op, id, b),
        ),
    decreases a.len(),
{
    if a.len() == 0 {
        assert(lane_op(op, id, id) == id);
    } else {
        let a2 = a.drop_last();
        let b2 = b.drop_last();
        assert(zip_lanes(op, a, b).drop_last() =~= zip_lanes(op, a2, b2));
        lemma_fold_zip(op, id, a2, b2);
        let p = fold_lanes(op, id, a2);
        let q = fold_lanes(op, id, b2);
        let x = a.last();
        let y = b.last();
        assert(zip_lanes(op, a, b).last() == lane_op(op, x, y));
        calc! {
            (==)
            lane_op(op, lane_op(op, p, q), lane_op(op, x, y)); {}
            lane_op(op, p, lane_op(op, q, lane_op(op, x, y))); {
                assert(lane_op(op, q, lane_op(op, x, y)) == lane_op(op, lane_op(op, q, x), y));
            }
            lane_op(op, p, lane_op(op, lane_op(op, q, x), y)); {
                assert(lane_op(op, q, x) == lane_op(op, x, q));
            }
            lane_op(op, p, lane_op(op, lane_op(op, x, q), y)); {
                assert(lane_op(op, lane_op(op, x, q), y) == lane_op(op, x, lane_op(op, q, y)));
            }
            lane_op(op, p, lane_op(op, x, lane_op(op, q, y))); {
                assert(lane_op(op, lane_op(op, p, x), lane_op(op, q, y)) == lane_op(
                    op,
                    p,
                    lane_op(op, x, lane_op(op, q, y)),
                ));
            }
            lane_op(op, lane_op(op, p, x), lane_op(op, q, y));
        }
    }
}

/// Combining equally long rows lane by lane and then folding the result equals folding all
/// their lanes, row after row, left to right, when `op` is associative and commutative with
/// identity `id`.
pub proof fn lemma_accumulate_then_fold<S: Lane>(op: BinOp, id: S, rows: Seq<Seq<S>>, n: nat)
    requires
        is_commutative_monoid(op, id),
        forall|i: int| 0 <= i < rows.len() ==> (#[trigger] rows[i]).len() == n,
    ensures
        fold_lanes(op, id, accumulate(op, rows)) == fold_lanes(op, id, concat_rows(rows)),
    decreases rows.len(),
{
    if rows.len() == 1 {
        assert(concat_rows(rows.drop_last()) =~= Seq::<S>::empty());
        assert(concat_rows(rows) =~= rows[0]);
    } else if rows.len() > 1 {
        let r2 = rows.drop_last();
        assert forall|i: int| 0 <= i < r2.len() implies (#[trigger] r2[i]).len() == n by {
            assert(r2[i] == rows[i]);
        }
        lemma_accumulate_then_fold(op, id, r2, n);
        lemma_accumulate_len(op, r2, n);
        lemma_fold_zip(op, id, accumulate(op, r2), rows.last());
        lemma_fold_concat(op, id, concat_rows(r2), rows.last());
    }
}

proof fn lemma_concat_lanes_is_flatten<V: Vector>(vectors: Seq<V>)
    ensures
        concat_rows(lanes_of(vectors)) == flatten(vectors),
    decreases vectors.len(),
{
    if vectors.len() > 0 {
        assert(lanes_of(vectors).drop_last() =~= lanes_of(vectors.drop_last()));
        lemma_concat_lanes_is_flatten(vectors.drop_last());
    }
}

/// Reducing vectors folds all their lanes in order: when `op` is associative and commutative
/// with identity `id`, what `sum` and `product` return (vectors combined lane by lane, then
/// the lanes folded) equals `op` folded over every lane of every vector, left to right.
pub proof fn lemma_reduction_folds_all_lanes<V: Vector>(op: BinOp, id: V::Scalar, vectors: Seq<V>)
    requires
        is_commutative_monoid(op, id),
    ensures
        fold_lanes(op, id, accumulate(op, lanes_of(vectors))) == fold_lanes(
            op,
            id,
            flatten(vectors),
        ),
{
    let rows = lanes_of(vectors);
    assert forall|i: int| 0 <= i < rows.len() implies (#[trigger] rows[i]).len()
        == V::Width::count() by {
        vectors[i].lemma_lanes_len();
    }
    lemma_accumulate_then_fold(op, id, rows, V::Width::count());
    lemma_concat_lanes_is_flatten(vectors);
}

} // verus!
