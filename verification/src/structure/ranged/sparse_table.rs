//! A doubling table: for every start `i` and level `j`, the fold of the
//! `2^j` elements from `i` on.
use vstd::prelude::*;
use vstd::arithmetic::power2::{
    lemma2_to64, lemma_pow2_strictly_increases, lemma_pow2_unfold, pow2,
};
use crate::algebra::{Commutativity, Idempotence, Monoid};
use crate::algebra::fold::{
    lemma_range_fold_overlap, lemma_range_fold_single, lemma_range_fold_split, range_fold,
};
use crate::structure::ranged::{copy_of, copy_slice, views, BuildableWithSlice, RangeOp, Ranged};
use vstd::std_specs::convert::FromSpecImpl;
use std::marker::PhantomData;
use std::ops::Range;

verus! {

/// Returns `t = floor(log2(c))` and `2^t`.
fn floor_log2(c: usize) -> (res: (usize, usize))
    requires
        1 <= c,
    ensures
        res.1 == pow2(res.0 as nat),
        res.1 <= c < 2 * res.1,
        res.0 < res.1,
{
    let mut t: usize = 0;
    let mut d: usize = 1;
    proof {
        lemma2_to64();
    }
    while d <= c / 2
        invariant
            d == pow2(t as nat),
            1 <= d <= c,
            t < d,
        decreases c - d,
    {
        proof {
            lemma_pow2_unfold((t + 1) as nat);
        }
        d = d * 2;
        t = t + 1;
    }
    (t, d)
}

/// Build: O(NlogN), [`RangeOp`]: O(1), needs [`Monoid`], [`Idempotence`]
/// and [`Commutativity`]: a range is answered from two windows that may
/// overlap.
///
/// There is no way to change an element: the table is built once.
#[derive(Debug)]
pub struct SparseTable<E, T> {
    alg: PhantomData<T>,
    doubling: Vec<Vec<E>>,
}

impl<E: View, T: Monoid<E>> View for SparseTable<E, T> {
    type V = Seq<E::V>;

    closed spec fn view(&self) -> Seq<E::V> {
        Seq::new(self.doubling@.len(), |i: int| self.doubling@[i]@[0]@)
    }
}

impl<E: View, T: Monoid<E>> Ranged<E> for SparseTable<E, T> {
    closed spec fn wf(&self) -> bool {
        let n = self.doubling@.len();
        &&& 1 <= self.levels()
        &&& n == 0 || pow2((self.levels() - 1) as nat) <= n
        &&& n < pow2(self.levels())
        &&& Self::rows_have_levels(self.doubling@, self.levels())
        &&& Self::levels_hold_folds(self.doubling@, self@, self.levels() as int, 0)
    }
}

impl<E: View, T: Monoid<E>> SparseTable<E, T> {
    /// The number of levels of the table.
    spec fn levels(&self) -> nat {
        if self.doubling@.len() == 0 {
            1
        } else {
            self.doubling@[0]@.len()
        }
    }

    /// Every row has an entry for each level.
    spec fn rows_have_levels(doubling: Seq<Vec<E>>, levels: nat) -> bool {
        forall|i: int| 0 <= i < doubling.len() ==> (#[trigger] doubling[i])@.len() == levels
    }

    /// Every entry below level `done`, and on level `done` in the rows above
    /// `rows`, holds the fold of its window, if the window fits into the
    /// sequence.
    spec fn levels_hold_folds(
        doubling: Seq<Vec<E>>,
        elems: Seq<E::V>,
        done: int,
        rows: int,
    ) -> bool {
        forall|i: int, j: int|
            0 <= i < doubling.len() && 0 <= j && (j < done || (j == done && i < rows)) && i + pow2(
                j as nat,
            ) <= doubling.len() ==> (#[trigger] doubling[i]@[j])@ == range_fold::<E, T>(
                elems,
                i,
                i + pow2(j as nat),
            )
    }

    /// Returns a row of `levels` identities.
    fn identities(levels: usize) -> (row: Vec<E>)
        ensures
            row@.len() == levels,
    {
        let mut row: Vec<E> = Vec::new();
        while row.len() < levels
            invariant
                row@.len() <= levels,
            decreases levels - row@.len(),
        {
            row.push(T::id());
        }
        row
    }
}

impl<E: View, T: Monoid<E>> Clone for SparseTable<E, T> {
    /// Returns a structure that stands for the same sequence.
    fn clone(&self) -> (res: Self)
        ensures
            self.wf() ==> res.wf() && res@ == self@,
    {
        let mut doubling: Vec<Vec<E>> = Vec::new();
        let mut i: usize = 0;
        while i < self.doubling.len()
            invariant
                i <= self.doubling@.len(),
                doubling@.len() == i,
                forall|k: int|
                    0 <= k < i ==> views((#[trigger] doubling@[k])@) == views(self.doubling@[k]@),
            decreases self.doubling@.len() - i,
        {
            doubling.push(copy_slice::<E, T>(self.doubling[i].as_slice()));
            i += 1;
        }
        let res = Self { alg: PhantomData, doubling };
        proof {
            assert forall|k: int, j: int|
                0 <= k < self.doubling@.len() && 0 <= j < self.doubling@[k]@.len() implies (
            #[trigger] res.doubling@[k]@[j])@ == self.doubling@[k]@[j]@ && res.doubling@[k]@.len()
                == self.doubling@[k]@.len() by {
                assert(views(res.doubling@[k]@)[j] == views(self.doubling@[k]@)[j]);
            }
            if self.wf() {
                assert(res@ =~= self@);
            }
        }
        res
    }
}

impl<E: View, T: Monoid<E>> FromSpecImpl<Vec<E>> for SparseTable<E, T> {
    open spec fn obeys_from_spec() -> bool {
        false
    }

    open spec fn from_spec(a: Vec<E>) -> Self {
        choose|res: Self| res.wf() && res@ == views(a@)
    }
}

impl<E: View, T: Monoid<E>> From<Vec<E>> for SparseTable<E, T> {
    fn from(a: Vec<E>) -> (res: Self)
        ensures
            res.wf(),
            res@ == views(a@),
    {
        let n = a.len();
        let ghost elems = views(a@);
        let t = if n == 0 {
            0
        } else {
            let (t, d) = floor_log2(n);
            proof {
                lemma_pow2_unfold((t + 1) as nat);
            }
            t
        };
        let mut doubling: Vec<Vec<E>> = Vec::new();
        let mut i: usize = 0;
        while i < n
            invariant
                i <= n == a@.len(),
                elems == views(a@),
                t < usize::MAX,
                doubling@.len() == i,
                Self::rows_have_levels(doubling@, (t + 1) as nat),
                forall|k: int| 0 <= k < i ==> (#[trigger] doubling@[k])@[0]@ == elems[k],
            decreases n - i,
        {
            let mut row = Self::identities(t + 1);
            row[0] = copy_of::<E, T>(&a[i]);
            doubling.push(row);
            i += 1;
        }
        proof {
            lemma2_to64();
            assert forall|i: int, j: int|
                0 <= i < n && j == 0 && i + pow2(j as nat) <= n implies (
            #[trigger] doubling@[i]@[j])@ == range_fold::<E, T>(elems, i, i + pow2(j as nat)) by {
                lemma_range_fold_single::<E, T>(elems, i);
            }
        }
        let mut j: usize = 0;
        let mut width: usize = 1;
        while j < t
            invariant
                j <= t < usize::MAX,
                n == doubling@.len(),
                n == elems.len(),
                width == pow2(j as nat),
                pow2(t as nat) <= n || t == 0,
                Self::rows_have_levels(doubling@, (t + 1) as nat),
                Self::levels_hold_folds(doubling@, elems, j + 1, 0),
                forall|k: int| 0 <= k < n ==> (#[trigger] doubling@[k])@[0]@ == elems[k],
            decreases t - j,
        {
            let mut i: usize = 0;
            while i < n
                invariant
                    i <= n,
                    j < t < usize::MAX,
                    n == doubling@.len(),
                    n == elems.len(),
                    width == pow2(j as nat),
                    Self::rows_have_levels(doubling@, (t + 1) as nat),
                    Self::levels_hold_folds(doubling@, elems, j + 1, i as int),
                    forall|k: int| 0 <= k < n ==> (#[trigger] doubling@[k])@[0]@ == elems[k],
                decreases n - i,
            {
                let partner = if width < n - i {
                    i + width
                } else {
                    n - 1
                };
                let combined = T::op(&doubling[i][j], &doubling[partner][j]);
                doubling[i][j + 1] = combined;
                proof {
                    lemma_pow2_unfold((j + 1) as nat);
                    if i + 2 * width <= n {
                        lemma_range_fold_split::<E, T>(elems, i as int, i + width, i + 2 * width);
                    }
                }
                i += 1;
            }
            proof {
                lemma_pow2_unfold((j + 1) as nat);
                if j + 1 < t {
                    lemma_pow2_strictly_increases((j + 1) as nat, t as nat);
                }
            }
            width = width * 2;
            j += 1;
        }
        let res = Self { alg: PhantomData, doubling };
        proof {
            assert(res@ =~= elems);
        }
        res
    }
}

impl<E: View, T: Monoid<E>> FromSpecImpl<&[E]> for SparseTable<E, T> {
    open spec fn obeys_from_spec() -> bool {
        false
    }

    open spec fn from_spec(a: &[E]) -> Self {
        choose|res: Self| res.wf() && res@ == views(a@)
    }
}

impl<E: View, T: Monoid<E>> From<&[E]> for SparseTable<E, T> {
    fn from(a: &[E]) -> (res: Self)
        ensures
            res.wf(),
            res@ == views(a@),
    {
        Self::from(copy_slice::<E, T>(a))
    }
}

impl<E: View, T: Monoid<E>> BuildableWithSlice<E, T> for SparseTable<E, T> {
    fn build_with(a: &[E]) -> (res: Self) {
        Self::from(a)
    }
}

impl<E: View, T> RangeOp<E, T> for SparseTable<E, T> where
    T: Monoid<E> + Idempotence<E> + Commutativity<E>,
 {
    fn range_op(&mut self, range: Range<usize>) -> (res: E) {
        let c = range.end - range.start;
        if c == 0 {
            T::id()
        } else {
            let (t, d) = floor_log2(c);
            proof {
                if t >= self.levels() {
                    if t > self.levels() {
                        lemma_pow2_strictly_increases(self.levels(), t as nat);
                    }
                }
                lemma_range_fold_overlap::<E, T>(
                    self@,
                    range.start as int,
                    range.end as int,
                    d as int,
                );
            }
            T::op(&self.doubling[range.start][t], &self.doubling[range.end - d][t])
        }
    }
}

} // verus!
