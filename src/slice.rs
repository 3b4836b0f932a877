//! Slices of vectors: aligned splitting and overlapping windows.

use crate::arch::Token;
use crate::scalar::ScalarExt;
use crate::vector::{Lane, Vector};
use crate::width::Width;
use vstd::prelude::*;

verus! {

/// The lanes of `vectors`, one vector after another.
pub open spec fn flatten<V: Vector>(vectors: Seq<V>) -> Seq<V::Scalar>
    decreases vectors.len(),
{
    if vectors.len() == 0 {
        Seq::empty()
    } else {
        flatten(vectors.drop_last()) + vectors.last().lanes()
    }
}

/// Splits `slice` into an unaligned head, a run of whole vectors and an unaligned tail, as
/// reinterpreting memory would: `lead` is the number of scalars before the first address at
/// which a vector may start (the head takes the whole slice if it is that short), the body
/// then takes as many whole vectors as fit, and the tail keeps what is left.
///
/// Concatenating the head, the lanes of each body vector in order, and the tail gives back
/// `slice` exactly.
pub fn align<'a, V: Vector>(token: V::Token, slice: &'a [V::Scalar], lead: usize) -> (r: (
    &'a [V::Scalar],
    Vec<V>,
    &'a [V::Scalar],
))
    ensures
        r.0@.len() == if lead <= slice@.len() {
            lead as int
        } else {
            slice@.len() as int
        },
        r.2@.len() < V::Width::count(),
        r.0@ + flatten(r.1@) + r.2@ == slice@,
        r.0@.len() + r.1@.len() * V::Width::count() + r.2@.len() == slice@.len(),
{
    let len = slice.len();
    let head_len = if lead <= len {
        lead
    } else {
        len
    };
    let w = <V::Width as Width>::value();
    let (head, rest) = slice.split_at(head_len);
    let mut body: Vec<V> = Vec::new();
    let mut pos: usize = head_len;
    while w <= len - pos
        invariant
            head_len <= pos <= len,
            len == slice@.len(),
            w as nat == V::Width::count(),
            1 <= w,
            head@ == slice@.subrange(0, head_len as int),
            flatten(body@) == slice@.subrange(head_len as int, pos as int),
            pos - head_len == body@.len() * w,
        decreases len - pos,
    {
        let v = V::read_at(token, slice, pos);
        proof {
            assert(body@.push(v).drop_last() =~= body@);
            assert(slice@.subrange(head_len as int, pos as int) + v.lanes() =~= slice@.subrange(
                head_len as int,
                pos + w,
            ));
            assert((body@.len() + 1) * w == body@.len() * w + w) by (nonlinear_arith);
        }
        body.push(v);
        pos = pos + w;
    }
    let (_, tail) = slice.split_at(pos);
    assert(head@ + flatten(body@) + tail@ =~= slice@);
    (head, body, tail)
}

/// Writes `body` back over `slice`, one vector after another, starting at `at`: the write-back
/// half of a mutable aligned split, with `at` the head's length. Scalars before `at` and after
/// the last vector keep their values.
pub fn write_aligned<V: Vector>(slice: &mut [V::Scalar], at: usize, body: &[V])
    requires
        at + body@.len() * V::Width::count() <= old(slice)@.len(),
    ensures
        final(slice)@ == old(slice)@.subrange(0, at as int) + flatten(body@) + old(slice)@.subrange(
            at + body@.len() * V::Width::count(),
            old(slice)@.len() as int,
        ),
{
    let ghost before = slice@;
    proof {
        assert(slice@.len() == slice.len());
    }
    let w = <V::Width as Width>::value();
    let n = body.len();
    let mut k: usize = 0;
    let mut pos: usize = at;
    assert(before.subrange(0, at as int) + flatten(body@.subrange(0, 0)) + before.subrange(
        at as int,
        before.len() as int,
    ) =~= before);
    while k < n
        invariant
            k <= n,
            n == body@.len(),
            w as nat == V::Width::count(),
            1 <= w,
            pos == at + k * w,
            at + n * w <= before.len(),
            before.len() <= usize::MAX,
            slice@.len() == before.len(),
            flatten(body@.subrange(0, k as int)).len() == k * w,
            slice@ == before.subrange(0, at as int) + flatten(body@.subrange(0, k as int))
                + before.subrange(pos as int, before.len() as int),
        decreases n - k,
    {
        let v = body[k];
        proof {
            v.lemma_lanes_len();
            assert((k + 1) * w == k * w + w) by (nonlinear_arith);
            assert(k + 1 <= n);
            assert((k + 1) * w <= n * w) by (nonlinear_arith)
                requires
                    k + 1 <= n,
            ;
            assert(body@.subrange(0, k + 1).drop_last() =~= body@.subrange(0, k as int));
            assert(body@.subrange(0, k + 1).last() == v);
        }
        v.write_at(slice, pos);
        proof {
            assert(slice@ =~= before.subrange(0, at as int) + flatten(body@.subrange(0, k + 1))
                + before.subrange(pos + w, before.len() as int));
        }
        k = k + 1;
        pos = pos + w;
    }
    assert(body@.subrange(0, n as int) =~= body@);
}

/// Wrapper for indexing into overlapping vectors.
///
/// Window `i` holds the scalars `i .. i + width()` of the slice; neighbouring windows share
/// all but one scalar.
pub struct Overlapping<'a, V: Vector> {
    slice: &'a [V::Scalar],
    token: V::Token,
}

impl<'a, V: Vector> Overlapping<'a, V> {
    #[verifier::type_invariant]
    spec fn holds_one_vector(&self) -> bool {
        self.slice@.len() >= V::Width::count()
    }

    /// The scalars the windows are taken from.
    pub closed spec fn view(&self) -> Seq<V::Scalar> {
        self.slice@
    }

    /// Create a new overlapping vector slice; the slice must be at least as wide as a vector.
    pub fn new(token: V::Token, slice: &'a [V::Scalar]) -> (r: Self)
        requires
            slice@.len() >= V::Width::count(),
        ensures
            r@ == slice@,
    {
        Overlapping { slice, token }
    }

    /// Returns the number of overlapping vectors: the slice's length less the width, plus one.
    pub fn len(&self) -> (r: usize)
        ensures
            r == self@.len() - V::Width::count() + 1,
    {
        proof {
            use_type_invariant(self);
        }
        self.slice.len() - <V::Width as Width>::value() + 1
    }

    /// Returns the vector at offset `index` into the slice of scalars, or `None` past the end.
    pub fn get(&self, index: usize) -> (r: Option<V>)
        ensures
            index < self@.len() - V::Width::count() + 1 ==> r.is_some() && r.unwrap().lanes()
                == self@.subrange(index as int, index + V::Width::count()),
            index >= self@.len() - V::Width::count() + 1 ==> r.is_none(),
    {
        if index < self.len() {
            Some(self.get_unchecked(index))
        } else {
            None
        }
    }

    /// Returns the vector at offset `index` into the slice of scalars; `index` must be less
    /// than `len()`.
    pub fn get_unchecked(&self, index: usize) -> (r: V)
        requires
            index < self@.len() - V::Width::count() + 1,
        ensures
            r.lanes() == self@.subrange(index as int, index + V::Width::count()),
    {
        V::read_at(self.token, self.slice, index)
    }
}

/// Wrapper for indexing into overlapping mutable vectors.
pub struct OverlappingMut<'a, V: Vector> {
    slice: &'a mut [V::Scalar],
    token: V::Token,
}

/// A pending write of one vector into an `OverlappingMut` window.
///
/// The handle starts zeroed: it is meant for writing, not for reading the window. Its vector
/// may be changed any number of times; the slice is written exactly once, when the handle is
/// handed to `OverlappingMut::release`. The handle does not write on its own: every path that
/// acquires one must call `release`, or the pending vector is lost.
#[must_use]
pub struct RefMut<V: Vector> {
    index: usize,
    temp: V,
}

impl<V: Vector> RefMut<V> {
    /// The window the handle writes to.
    pub closed spec fn index(&self) -> nat {
        self.index as nat
    }

    /// The vector that releasing the handle writes.
    pub closed spec fn pending(&self) -> V {
        self.temp
    }

    fn new(token: V::Token, index: usize) -> (r: Self)
        ensures
            r.index() == index,
            r.pending().lanes() == crate::vector::splat_lanes(
                V::Width::count(),
                V::Scalar::spec_zero(),
            ),
    {
        RefMut { index, temp: V::zeroed(token) }
    }

    /// Returns the pending vector.
    pub fn get(&self) -> (r: V)
        ensures
            r == self.pending(),
    {
        self.temp
    }

    /// Replaces the pending vector; nothing is written to the slice yet.
    pub fn set(&mut self, value: V)
        ensures
            final(self).pending() == value,
            final(self).index() == old(self).index(),
    {
        self.temp = value;
    }
}

impl<'a, V: Vector> OverlappingMut<'a, V> {
    /// The slice holds at least one whole vector.
    pub closed spec fn wf(&self) -> bool {
        self.slice@.len() >= V::Width::count()
    }

    /// The scalars the windows are taken from.
    pub closed spec fn view(&self) -> Seq<V::Scalar> {
        self.slice@
    }

    /// Create a new overlapping vector slice; the slice must be at least as wide as a vector.
    pub fn new(token: V::Token, slice: &'a mut [V::Scalar]) -> (r: Self)
        requires
            old(slice)@.len() >= V::Width::count(),
        ensures
            r.wf(),
            r@ == old(slice)@,
    {
        OverlappingMut { slice, token }
    }

    /// Returns the number of overlapping vectors: the slice's length less the width, plus one.
    pub fn len(&self) -> (r: usize)
        requires
            self.wf(),
        ensures
            r == self@.len() - V::Width::count() + 1,
    {
        self.slice.len() - <V::Width as Width>::value() + 1
    }

    /// Returns the vector at offset `index` into the slice of scalars, or `None` past the end.
    pub fn get(&self, index: usize) -> (r: Option<V>)
        requires
            self.wf(),
        ensures
            index < self@.len() - V::Width::count() + 1 ==> r.is_some() && r.unwrap().lanes()
                == self@.subrange(index as int, index + V::Width::count()),
            index >= self@.len() - V::Width::count() + 1 ==> r.is_none(),
    {
        if index < self.len() {
            Some(self.get_unchecked(index))
        } else {
            None
        }
    }

    /// Returns the vector at offset `index` into the slice of scalars; `index` must be less
    /// than `len()`.
    pub fn get_unchecked(&self, index: usize) -> (r: V)
        requires
            index < self@.len() - V::Width::count() + 1,
        ensures
            r.lanes() == self@.subrange(index as int, index + V::Width::count()),
    {
        V::read_at(self.token, self.slice, index)
    }

    /// Returns a handle for writing the vector at offset `index`, or `None` past the end.
    /// Taking the handle writes nothing.
    pub fn get_mut(&self, index: usize) -> (r: Option<RefMut<V>>)
        requires
            self.wf(),
        ensures
            index < self@.len() - V::Width::count() + 1 ==> r.is_some() && r.unwrap().index()
                == index && r.unwrap().pending().lanes() == crate::vector::splat_lanes(
                V::Width::count(),
                V::Scalar::spec_zero(),
            ),
            index >= self@.len() - V::Width::count() + 1 ==> r.is_none(),
    {
        if index < self.len() {
            Some(self.get_unchecked_mut(index))
        } else {
            None
        }
    }

    /// Returns a handle for writing the vector at offset `index`; `index` must be less than
    /// `len()`.
    pub fn get_unchecked_mut(&self, index: usize) -> (r: RefMut<V>)
        requires
            index < self@.len() - V::Width::count() + 1,
        ensures
            r.index() == index,
            r.pending().lanes() == crate::vector::splat_lanes(
                V::Width::count(),
                V::Scalar::spec_zero(),
            ),
    {
        RefMut::new(self.token, index)
    }

    /// Writes the handle's pending vector over its window, the one write the handle makes.
    /// Every other scalar keeps its value.
    pub fn release(&mut self, handle: RefMut<V>)
        requires
            old(self).wf(),
            handle.index() < old(self)@.len() - V::Width::count() + 1,
        ensures
            final(self).wf(),
            final(self)@ == old(self)@.subrange(0, handle.index() as int)
                + handle.pending().lanes() + old(self)@.subrange(
                (handle.index() + V::Width::count()) as int,
                old(self)@.len() as int,
            ),
    {
        proof {
            handle.temp.lemma_lanes_len();
        }
        handle.temp.write_at(self.slice, handle.index);
    }
}

/// Vector views of a slice of scalars, under token `T`.
pub trait Slice<S: ScalarExt<T>, T: Token> {
    /// The scalars of the slice.
    spec fn scalars(&self) -> Seq<S>;

    /// Align a slice of scalars to vectors with 1 lane; see [`align`].
    fn align1(&self, token: T, lead: usize) -> (r: (&[S], Vec<S::Vector1>, &[S]))
        ensures
            r.0@.len() == if lead <= self.scalars().len() {
                lead as int
            } else {
                self.scalars().len() as int
            },
            r.0@ + flatten(r.1@) + r.2@ == self.scalars(),
            r.0@.len() + r.1@.len() * 1 + r.2@.len() == self.scalars().len(),
            r.2@.len() < 1,
    ;

    /// Create a slice of overlapping vectors with 1 lane; see [`Overlapping`].
    fn overlapping1(&self, token: T) -> (r: Overlapping<'_, S::Vector1>)
        requires
            self.scalars().len() >= 1,
        ensures
            r@ == self.scalars(),
    ;

    /// Align a slice of scalars to vectors with 2 lanes; see [`align`].
    fn align2(&self, token: T, lead: usize) -> (r: (&[S], Vec<S::Vector2>, &[S]))
        ensures
            r.0@.len() == if lead <= self.scalars().len() {
                lead as int
            } else {
                self.scalars().len() as int
            },
            r.0@ + flatten(r.1@) + r.2@ == self.scalars(),
            r.0@.len() + r.1@.len() * 2 + r.2@.len() == self.scalars().len(),
            r.2@.len() < 2,
    ;

    /// Create a slice of overlapping vectors with 2 lanes; see [`Overlapping`].
    fn overlapping2(&self, token: T) -> (r: Overlapping<'_, S::Vector2>)
        requires
            self.scalars().len() >= 2,
        ensures
            r@ == self.scalars(),
    ;

    /// Align a slice of scalars to vectors with 4 lanes; see [`align`].
    fn align4(&self, token: T, lead: usize) -> (r: (&[S], Vec<S::Vector4>, &[S]))
        ensures
            r.0@.len() == if lead <= self.scalars().len() {
                lead as int
            } else {
                self.scalars().len() as int
            },
            r.0@ + flatten(r.1@) + r.2@ == self.scalars(),
            r.0@.len() + r.1@.len() * 4 + r.2@.len() == self.scalars().len(),
            r.2@.len() < 4,
    ;

    /// Create a slice of overlapping vectors with 4 lanes; see [`Overlapping`].
    fn overlapping4(&self, token: T) -> (r: Overlapping<'_, S::Vector4>)
        requires
            self.scalars().len() >= 4,
        ensures
            r@ == self.scalars(),
    ;

    /// Align a slice of scalars to vectors with 8 lanes; see [`align`].
    fn align8(&self, token: T, lead: usize) -> (r: (&[S], Vec<S::Vector8>, &[S]))
        ensures
            r.0@.len() == if lead <= self.scalars().len() {
                lead as int
            } else {
                self.scalars().len() as int
            },
            r.0@ + flatten(r.1@) + r.2@ == self.scalars(),
            r.0@.len() + r.1@.len() * 8 + r.2@.len() == self.scalars().len(),
            r.2@.len() < 8,
    ;

    /// Create a slice of overlapping vectors with 8 lanes; see [`Overlapping`].
    fn overlapping8(&self, token: T) -> (r: Overlapping<'_, S::Vector8>)
        requires
            self.scalars().len() >= 8,
        ensures
            r@ == self.scalars(),
    ;
}

impl<S: ScalarExt<T>, T: Token> Slice<S, T> for [S] {
    open spec fn scalars(&self) -> Seq<S> {
        self@
    }

    fn align1(&self, token: T, lead: usize) -> (r: (&[S], Vec<S::Vector1>, &[S])) {
        proof {
            assert(<S::Vector1 as Vector>::Width::count() == 1);
        }
        align::<S::Vector1>(token, self, lead)
    }

    fn overlapping1(&self, token: T) -> (r: Overlapping<'_, S::Vector1>) {
        proof {
            assert(<S::Vector1 as Vector>::Width::count() == 1);
        }
        Overlapping::new(token, self)
    }

    fn align2(&self, token: T, lead: usize) -> (r: (&[S], Vec<S::Vector2>, &[S])) {
        proof {
            assert(<S::Vector2 as Vector>::Width::count() == 2);
        }
        align::<S::Vector2>(token, self, lead)
    }

    fn overlapping2(&self, token: T) -> (r: Overlapping<'_, S::Vector2>) {
        proof {
            assert(<S::Vector2 as Vector>::Width::count() == 2);
        }
        Overlapping::new(token, self)
    }

    fn align4(&self, token: T, lead: usize) -> (r: (&[S], Vec<S::Vector4>, &[S])) {
        proof {
            assert(<S::Vector4 as Vector>::Width::count() == 4);
        }
        align::<S::Vector4>(token, self, lead)
    }

    fn overlapping4(&self, token: T) -> (r: Overlapping<'_, S::Vector4>) {
        proof {
            assert(<S::Vector4 as Vector>::Width::count() == 4);
        }
        Overlapping::new(token, self)
    }

    fn align8(&self, token: T, lead: usize) -> (r: (&[S], Vec<S::Vector8>, &[S])) {
        proof {
            assert(<S::Vector8 as Vector>::Width::count() == 8);
        }
        align::<S::Vector8>(token, self, lead)
    }

    fn overlapping8(&self, token: T) -> (r: Overlapping<'_, S::Vector8>) {
        proof {
            assert(<S::Vector8 as Vector>::Width::count() == 8);
        }
        Overlapping::new(token, self)
    }
}

} // verus!
