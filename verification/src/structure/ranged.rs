//! Structures that answer fold queries over a sequence.
//!
//! Each structure stands for a sequence of elements, which is its view. The
//! three query traits state, in terms of that sequence alone, what a structure
//! answers; which of them a structure offers, and for which operators, depends
//! on the laws its algorithm needs.
use vstd::prelude::*;
use crate::algebra::Monoid;
use crate::algebra::fold::{prefix_fold, range_fold};
use std::ops::Range;

/// Build: O(N), [`LeftFixedOp`]: O(1), needs [`Monoid`].
///
/// For [`Group`](crate::algebra::Group), [`RangeOp`]: O(1).
pub mod accumulative_array;
/// Build: O(N), [`LeftFixedOp`]: O(logN), needs [`Monoid`].
///
/// For [`Commutativity`](crate::algebra::Commutativity), `point_op_assign`:
/// O(logN).
///
/// For [`Group`](crate::algebra::Group), [`RangeOp`] and [`PointAssign`]:
/// O(logN).
pub mod fenwick_tree;
/// Build: O(N), [`RangeOp`]: O(N). The plain sequence, folded element by
/// element.
pub mod naive_vec;
/// Build: O(N), [`RangeOp`]: O(logN), [`PointAssign`]: O(logN), needs
/// [`Monoid`].
pub mod segment_tree;
/// Build: O(NlogN), [`RangeOp`]: O(1), needs
/// [`Idempotence`](crate::algebra::Idempotence) and [`Monoid`].
pub mod sparse_table;
/// Build: O(N), [`RangeOp`]: O(sqrt N), [`PointAssign`]: O(sqrt N), needs
/// [`Monoid`].
pub mod square_root_decomposition;

verus! {

/// The views of the elements of `s`, in order.
pub open spec fn views<E: View>(s: Seq<E>) -> Seq<E::V> {
    Seq::new(s.len(), |i: int| s[i]@)
}

/// A structure that stands for a sequence of elements of type `E`. Its view
/// is that sequence, each element taken by its own view.
pub trait Ranged<E: View>: View<V = Seq<E::V>> {
    /// The invariant that ties the structure's storage to the sequence it
    /// stands for. Constructors establish it and every operation keeps it.
    spec fn wf(&self) -> bool;
}

/// Able to replace the element at an index.
pub trait PointAssign<E: View, T>: Ranged<E> {
    /// Replaces the element at `index` with `elem`; every other element stays.
    fn set_at(&mut self, elem: E, index: usize)
        requires
            old(self).wf(),
            index < old(self)@.len(),
        ensures
            final(self).wf(),
            final(self)@ == old(self)@.update(index as int, elem@),
    ;
}

/// Able to fold the elements in `[l, r)`.
pub trait RangeOp<E: View, T: Monoid<E>>: Ranged<E> {
    /// Returns the fold of the elements whose index lies in
    /// `[range.start, range.end)`, in their order in the sequence; the
    /// identity if the range is empty. The sequence is left as it was.
    ///
    /// `self` is mutable since some structures may have to update cached
    /// state while they answer.
    fn range_op(&mut self, range: Range<usize>) -> (res: E)
        requires
            old(self).wf(),
            range.start <= range.end <= old(self)@.len(),
        ensures
            final(self).wf(),
            final(self)@ == old(self)@,
            res@ == range_fold::<E, T>(old(self)@, range.start as int, range.end as int),
            range.start == range.end ==> res@ == T::id_spec(),
    ;
}

/// Able to fold the elements in `[0, r)`.
pub trait LeftFixedOp<E: View, T: Monoid<E>>: Ranged<E> {
    /// Returns the fold of the first `r` elements; the identity if `r` is 0.
    /// The sequence is left as it was.
    ///
    /// By [`lemma_prefix_fold_is_range_fold`](crate::algebra::fold::lemma_prefix_fold_is_range_fold)
    /// this is what [`RangeOp::range_op`] returns for `0..r`.
    ///
    /// `self` is mutable since some structures may have to update cached
    /// state while they answer.
    fn right_op(&mut self, r: usize) -> (res: E)
        requires
            old(self).wf(),
            r <= old(self)@.len(),
        ensures
            final(self).wf(),
            final(self)@ == old(self)@,
            res@ == prefix_fold::<E, T>(old(self)@, r as int),
            r == 0 ==> res@ == T::id_spec(),
    ;
}

/// Able to build a structure that stands for the elements of a slice.
pub trait BuildableWithSlice<E: View, T: Monoid<E>>: Ranged<E> + Sized {
    /// Builds the structure that stands for the elements of `a`.
    fn build_with(a: &[E]) -> (res: Self)
        ensures
            res.wf(),
            res@ == views(a@),
    ;
}

/// Structures that stand for the same sequence answer alike: what
/// [`RangeOp::range_op`] returns is fixed by the sequence, the operator and
/// the range, whichever structure is asked.
pub proof fn lemma_same_sequence_same_fold<
    E: View,
    T: Monoid<E>,
    A: RangeOp<E, T>,
    B: RangeOp<E, T>,
>(a: A, b: B, l: int, r: int)
    requires
        a@ == b@,
        0 <= l <= r <= a@.len(),
    ensures
        range_fold::<E, T>(a@, l, r) == range_fold::<E, T>(b@, l, r),
{
}

/// Returns an element with the view of `x`, made by combining `x` with the
/// identity: elements are only ever combined, never inspected.
pub fn copy_of<E: View, T: Monoid<E>>(x: &E) -> (res: E)
    ensures
        res@ == x@,
{
    proof {
        T::identity(x@);
    }
    T::op(&T::id(), x)
}

/// Returns a vector with the views of the elements of `a`.
pub fn copy_slice<E: View, T: Monoid<E>>(a: &[E]) -> (res: Vec<E>)
    ensures
        views(res@) == views(a@),
{
    let mut res: Vec<E> = Vec::new();
    let mut i: usize = 0;
    while i < a.len()
        invariant
            i <= a.len(),
            res@.len() == i,
            forall|k: int| 0 <= k < i ==> res@[k]@ == a@[k]@,
        decreases a.len() - i,
    {
        res.push(copy_of::<E, T>(&a[i]));
        i += 1;
    }
    res
}

} // verus!
