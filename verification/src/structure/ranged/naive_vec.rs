//! The baseline: the sequence itself, folded element by element.
use vstd::prelude::*;
use crate::algebra::{Magma, Monoid};
use crate::algebra::fold::{lemma_range_fold_step, range_fold};
use crate::structure::ranged::{
    copy_slice, views, BuildableWithSlice, LeftFixedOp, PointAssign, RangeOp, Ranged,
};
use vstd::std_specs::convert::FromSpecImpl;
use std::marker::PhantomData;
use std::ops::Range;

verus! {

/// The sequence as it is. Every other structure answers as this one does.
#[derive(Debug)]
pub struct NaiveVec<E, T> {
    alg: PhantomData<T>,
    data: Vec<E>,
}

impl<E: View, T> View for NaiveVec<E, T> {
    type V = Seq<E::V>;

    closed spec fn view(&self) -> Seq<E::V> {
        views(self.data@)
    }
}

impl<E: View, T> Ranged<E> for NaiveVec<E, T> {
    open spec fn wf(&self) -> bool {
        true
    }
}

impl<E: View, T> PointAssign<E, T> for NaiveVec<E, T> {
    fn set_at(&mut self, elem: E, index: usize) {
        self.data[index] = elem;
    }
}

impl<E: View, T: Magma<E>> NaiveVec<E, T> {
    /// Combines `rhs` into the element at `index`, from the right; every
    /// other element stays.
    pub fn point_op_assign(&mut self, index: usize, rhs: &E)
        requires
            index < old(self)@.len(),
        ensures
            final(self)@ == old(self)@.update(
                index as int,
                T::op_spec(old(self)@[index as int], rhs@),
            ),
    {
        let combined = T::op(&self.data[index], rhs);
        self.data[index] = combined;
    }
}

impl<E: View, T: Monoid<E>> NaiveVec<E, T> {
    /// Builds the structure that stands for the elements of `a`.
    pub fn build_with(a: &[E]) -> (res: Self)
        ensures
            res@ == views(a@),
    {
        Self::from(a)
    }
}

impl<E: View, T: Monoid<E>> BuildableWithSlice<E, T> for NaiveVec<E, T> {
    fn build_with(a: &[E]) -> (res: Self) {
        Self::from(a)
    }
}

impl<E: View, T: Monoid<E>> LeftFixedOp<E, T> for NaiveVec<E, T> {
    fn right_op(&mut self, r: usize) -> (res: E) {
        self.range_op(0..r)
    }
}

impl<E: View, T: Monoid<E>> RangeOp<E, T> for NaiveVec<E, T> {
    fn range_op(&mut self, range: Range<usize>) -> (res: E) {
        let mut res = T::id();
        let mut i = range.start;
        while i < range.end
            invariant
                range.start <= i <= range.end <= self@.len(),
                self@ == old(self)@,
                self@ == views(self.data@),
                res@ == range_fold::<E, T>(self@, range.start as int, i as int),
            decreases range.end - i,
        {
            proof {
                lemma_range_fold_step::<E, T>(self@, range.start as int, i as int);
            }
            res = T::op(&res, &self.data[i]);
            i += 1;
        }
        res
    }
}

impl<E: View, T: Monoid<E>> Clone for NaiveVec<E, T> {
    /// Returns a structure that stands for the same sequence.
    fn clone(&self) -> (res: Self)
        ensures
            res@ == self@,
    {
        Self { alg: PhantomData, data: copy_slice::<E, T>(self.data.as_slice()) }
    }
}

impl<E: View, T> FromSpecImpl<Vec<E>> for NaiveVec<E, T> {
    open spec fn obeys_from_spec() -> bool {
        true
    }

    closed spec fn from_spec(data: Vec<E>) -> Self {
        Self { alg: PhantomData, data }
    }
}

impl<E: View, T> From<Vec<E>> for NaiveVec<E, T> {
    fn from(data: Vec<E>) -> (res: Self)
        ensures
            res@ == views(data@),
    {
        Self { alg: PhantomData, data }
    }
}

impl<E: View, T: Monoid<E>> FromSpecImpl<&[E]> for NaiveVec<E, T> {
    open spec fn obeys_from_spec() -> bool {
        false
    }

    open spec fn from_spec(data: &[E]) -> Self {
        choose|res: Self| res@ == views(data@)
    }
}

impl<E: View, T: Monoid<E>> From<&[E]> for NaiveVec<E, T> {
    fn from(data: &[E]) -> (res: Self)
        ensures
            res@ == views(data@),
    {
        Self::from(copy_slice::<E, T>(data))
    }
}

} // verus!
