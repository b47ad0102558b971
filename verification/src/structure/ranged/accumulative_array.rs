//! The prefix folds of a sequence.
use vstd::prelude::*;
use crate::algebra::{Commutativity, Group, Monoid};
use crate::algebra::fold::{lemma_range_fold_by_difference, lemma_range_fold_step, prefix_fold};
use crate::structure::ranged::{
    copy_of, copy_slice, views, BuildableWithSlice, LeftFixedOp, RangeOp, Ranged,
};
use vstd::std_specs::convert::FromSpecImpl;
use std::marker::PhantomData;
use std::ops::Range;

verus! {

/// Build: O(N), [`LeftFixedOp`]: O(1), needs [`Monoid`].
///
/// For [`Group`] and [`Commutativity`], [`RangeOp`]: O(1), as the prefix
/// fold up to the end of the range combined with the inverse of the prefix
/// fold up to its start. That discards what lies before the range only if
/// the inverse may be moved past everything that follows it, hence the
/// commutativity.
///
/// There is no way to change an element: the array is built once.
pub struct AccumulativeArray<E: View, T> {
    alg: PhantomData<T>,
    data: Vec<E>,
    elems: Ghost<Seq<E::V>>,
}

impl<E: View, T: Monoid<E>> View for AccumulativeArray<E, T> {
    type V = Seq<E::V>;

    closed spec fn view(&self) -> Seq<E::V> {
        self.elems@
    }
}

impl<E: View, T: Monoid<E>> Ranged<E> for AccumulativeArray<E, T> {
    closed spec fn wf(&self) -> bool {
        &&& self.data@.len() == self.elems@.len() + 1
        &&& forall|i: int|
            0 <= i <= self.elems@.len() ==> (#[trigger] self.data@[i])@ == prefix_fold::<E, T>(
                self.elems@,
                i,
            )
    }
}

impl<E: View, T: Monoid<E>> Clone for AccumulativeArray<E, T> {
    /// Returns a structure that stands for the same sequence.
    fn clone(&self) -> (res: Self)
        ensures
            res@ == self@,
            self.wf() ==> res.wf(),
    {
        let data = copy_slice::<E, T>(self.data.as_slice());
        proof {
            assert(self.data@.len() == views(self.data@).len());
            assert forall|i: int| 0 <= i < data@.len() implies (#[trigger] data@[i])@
                == self.data@[i]@ by {
                assert(views(data@)[i] == views(self.data@)[i]);
            }
        }
        Self { alg: PhantomData, data, elems: self.elems }
    }
}

impl<E: View, T: Monoid<E>> FromSpecImpl<Vec<E>> for AccumulativeArray<E, T> {
    open spec fn obeys_from_spec() -> bool {
        false
    }

    open spec fn from_spec(a: Vec<E>) -> Self {
        choose|res: Self| res.wf() && res@ == views(a@)
    }
}

impl<E: View, T: Monoid<E>> From<Vec<E>> for AccumulativeArray<E, T> {
    fn from(a: Vec<E>) -> (res: Self)
        ensures
            res.wf(),
            res@ == views(a@),
    {
        let ghost elems = views(a@);
        let mut data: Vec<E> = Vec::new();
        data.push(T::id());
        let mut i: usize = 0;
        while i < a.len()
            invariant
                i <= a@.len(),
                elems == views(a@),
                data@.len() == i + 1,
                forall|k: int|
                    0 <= k <= i ==> (#[trigger] data@[k])@ == prefix_fold::<E, T>(elems, k),
            decreases a@.len() - i,
        {
            proof {
                lemma_range_fold_step::<E, T>(elems, 0, i as int);
            }
            let next = T::op(&data[i], &a[i]);
            data.push(next);
            i += 1;
        }
        Self { alg: PhantomData, data, elems: Ghost(elems) }
    }
}

impl<E: View, T: Monoid<E>> FromSpecImpl<&[E]> for AccumulativeArray<E, T> {
    open spec fn obeys_from_spec() -> bool {
        false
    }

    open spec fn from_spec(a: &[E]) -> Self {
        choose|res: Self| res.wf() && res@ == views(a@)
    }
}

impl<E: View, T: Monoid<E>> From<&[E]> for AccumulativeArray<E, T> {
    fn from(a: &[E]) -> (res: Self)
        ensures
            res.wf(),
            res@ == views(a@),
    {
        Self::from(copy_slice::<E, T>(a))
    }
}

impl<E: View, T: Monoid<E>> BuildableWithSlice<E, T> for AccumulativeArray<E, T> {
    fn build_with(a: &[E]) -> (res: Self) {
        Self::from(a)
    }
}

impl<E: View, T: Monoid<E>> LeftFixedOp<E, T> for AccumulativeArray<E, T> {
    fn right_op(&mut self, r: usize) -> (res: E) {
        copy_of::<E, T>(&self.data[r])
    }
}

impl<E: View, T> RangeOp<E, T> for AccumulativeArray<E, T> where T: Group<E> + Commutativity<E> {
    fn range_op(&mut self, range: Range<usize>) -> (res: E) {
        proof {
            lemma_range_fold_by_difference::<E, T>(self@, range.start as int, range.end as int);
        }
        T::op(&self.data[range.end], &T::inv(&self.data[range.start]))
    }
}

} // verus!
