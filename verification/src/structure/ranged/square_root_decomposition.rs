//! The sequence, cut into blocks of `b = ceil(sqrt(n))` elements, with the
//! fold of each block kept beside it.
use vstd::prelude::*;
use crate::algebra::Monoid;
use crate::algebra::fold::{
    lemma_range_fold_split, lemma_range_fold_step, lemma_range_fold_update_outside, range_fold,
};
use crate::structure::ranged::{
    copy_slice, views, BuildableWithSlice, LeftFixedOp, PointAssign, RangeOp, Ranged,
};
use vstd::std_specs::convert::FromSpecImpl;
use std::marker::PhantomData;
use std::ops::Range;

verus! {

/// Where block `k` starts in a sequence of `n` elements cut into blocks of
/// `b`: at `k * b`, or at the end of the sequence if that lies beyond it.
pub open spec fn block_start(b: int, n: int, k: int) -> int {
    if k * b <= n {
        k * b
    } else {
        n
    }
}

/// What the length of a block is for a sequence of `n` elements: the least
/// `b >= 1` with `b * b >= n`, which is the square root of `n` rounded up,
/// and 1 for the empty sequence.
pub open spec fn is_block_len(b: int, n: int) -> bool {
    &&& 1 <= b
    &&& n <= b * b
    &&& b == 1 || (b - 1) * (b - 1) < n
}

/// `i` lies in block `i / b`.
pub proof fn lemma_block_of(b: int, i: int)
    by (nonlinear_arith)
    requires
        0 < b,
        0 <= i,
    ensures
        0 <= i / b,
        (i / b) * b <= i < (i / b + 1) * b,
{
}

/// Blocks do not overlap: an earlier block ends where a later one starts, or
/// before.
pub proof fn lemma_blocks_ordered(b: int, k1: int, k2: int)
    by (nonlinear_arith)
    requires
        0 < b,
        0 <= k1 < k2,
    ensures
        (k1 + 1) * b <= k2 * b,
        (k1 + 1) * b == k1 * b + b,
{
}

/// An element of a sequence that `b` blocks of `b` elements cover lies in one
/// of those blocks.
pub proof fn lemma_block_in_range(b: int, i: int)
    by (nonlinear_arith)
    requires
        0 < b,
        0 <= i < b * b,
    ensures
        i / b < b,
{
}

/// Returns whether `i * i >= n`.
fn square_reaches(i: usize, n: usize) -> (res: bool)
    ensures
        res == (i * i >= n),
{
    match i.checked_mul(i) {
        Some(square) => square >= n,
        None => true,
    }
}

/// Build: O(N), [`RangeOp`], [`LeftFixedOp`] and [`PointAssign`]:
/// O(sqrt N). Needs a [`Monoid`] and nothing more: a block's fold is computed
/// anew when one of its elements changes.
#[derive(Debug)]
pub struct SquareRootDecomposition<E, T> {
    alg: PhantomData<T>,
    data: Vec<E>,
    blocks: Vec<E>,
}

impl<E: View, T: Monoid<E>> View for SquareRootDecomposition<E, T> {
    type V = Seq<E::V>;

    closed spec fn view(&self) -> Seq<E::V> {
        views(self.data@)
    }
}

impl<E: View, T: Monoid<E>> Ranged<E> for SquareRootDecomposition<E, T> {
    closed spec fn wf(&self) -> bool {
        let b = self.blocks@.len() as int;
        let n = self.data@.len() as int;
        &&& is_block_len(b, n)
        &&& Self::blocks_hold_folds(views(self.blocks@), self@, n)
    }
}

impl<E: View, T: Monoid<E>> SquareRootDecomposition<E, T> {
    /// The length of a block, which is also the number of blocks.
    pub closed spec fn spec_block_len(&self) -> int {
        self.blocks@.len() as int
    }

    /// Every block's entry holds the fold of what has been counted of the
    /// block so far: of the block's part below `upto`.
    spec fn blocks_hold_folds(blocks: Seq<E::V>, elems: Seq<E::V>, upto: int) -> bool {
        forall|k: int|
            0 <= k < blocks.len() ==> #[trigger] blocks[k] == range_fold::<E, T>(
                elems,
                block_start(blocks.len() as int, upto, k),
                block_start(blocks.len() as int, upto, k + 1),
            )
    }

    /// A block's entry is the fold of the block.
    proof fn lemma_block_is_fold(&self, k: int)
        requires
            self.wf(),
            0 <= k < self.spec_block_len(),
        ensures
            self.blocks@[k]@ == range_fold::<E, T>(
                self@,
                block_start(self.spec_block_len(), self@.len() as int, k),
                block_start(self.spec_block_len(), self@.len() as int, k + 1),
            ),
    {
        assert(views(self.blocks@)[k] == self.blocks@[k]@);
    }

    /// The length of a block, which is also the number of blocks.
    pub fn block_len(&self) -> (res: usize)
        ensures
            res == self.spec_block_len(),
            self.wf() ==> is_block_len(res as int, self@.len() as int),
    {
        self.blocks.len()
    }

    /// Folds the elements in `range` one by one.
    pub fn naive_fold(&self, range: Range<usize>) -> (res: E)
        requires
            range.start <= range.end <= self@.len(),
        ensures
            res@ == range_fold::<E, T>(self@, range.start as int, range.end as int),
    {
        let mut res = T::id();
        let mut i = range.start;
        while i < range.end
            invariant
                range.start <= i <= range.end <= self@.len(),
                res@ == range_fold::<E, T>(self@, range.start as int, i as int),
            decreases range.end - i,
        {
            proof {
                lemma_range_fold_step::<E, T>(self@, range.start as int, i as int);
            }
            res = T::op(&res, &self.data[i]);
            i += 1;
        }
        res
    }

    /// Returns where the block that starts at `start` ends.
    fn block_end(&self, start: usize, Ghost(k): Ghost<int>) -> (end: usize)
        requires
            self.wf(),
            0 <= k < self.spec_block_len(),
            start == block_start(self.spec_block_len(), self@.len() as int, k),
        ensures
            start <= end <= self@.len(),
            end == block_start(self.spec_block_len(), self@.len() as int, k + 1),
    {
        proof {
            lemma_blocks_ordered(self.spec_block_len(), k, k + 1);
        }
        if self.data.len() - start < self.blocks.len() {
            self.data.len()
        } else {
            start + self.blocks.len()
        }
    }
}

impl<E: View, T: Monoid<E>> Clone for SquareRootDecomposition<E, T> {
    /// Returns a structure that stands for the same sequence.
    fn clone(&self) -> (res: Self)
        ensures
            res@ == self@,
            self.wf() ==> res.wf(),
    {
        let data = copy_slice::<E, T>(self.data.as_slice());
        let blocks = copy_slice::<E, T>(self.blocks.as_slice());
        assert(data@.len() == views(data@).len());
        assert(blocks@.len() == views(blocks@).len());
        Self { alg: PhantomData, data, blocks }
    }
}

impl<E: View, T: Monoid<E>> FromSpecImpl<Vec<E>> for SquareRootDecomposition<E, T> {
    open spec fn obeys_from_spec() -> bool {
        false
    }

    open spec fn from_spec(data: Vec<E>) -> Self {
        choose|res: Self| res.wf() && res@ == views(data@)
    }
}

impl<E: View, T: Monoid<E>> From<Vec<E>> for SquareRootDecomposition<E, T> {
    fn from(data: Vec<E>) -> (res: Self)
        ensures
            res.wf(),
            res@ == views(data@),
    {
        let n = data.len();
        let mut block_len: usize = 1;
        while !square_reaches(block_len, n)
            invariant
                1 <= block_len,
                block_len == 1 || (block_len - 1) * (block_len - 1) < n,
            decreases n - block_len,
        {
            assert(block_len < n) by (nonlinear_arith)
                requires
                    1 <= block_len,
                    block_len * block_len < n,
            ;
            block_len += 1;
        }
        let mut blocks: Vec<E> = Vec::new();
        while blocks.len() < block_len
            invariant
                blocks@.len() <= block_len,
                forall|k: int| 0 <= k < blocks@.len() ==> #[trigger] blocks@[k]@ == T::id_spec(),
            decreases block_len - blocks@.len(),
        {
            blocks.push(T::id());
        }
        let ghost elems = views(data@);
        let ghost b = block_len as int;
        assert forall|k: int| 0 <= k < b implies block_start(b, 0, k) == 0 by {
            if k > 0 {
                lemma_blocks_ordered(b, 0, k);
            }
        }
        let mut i: usize = 0;
        while i < n
            invariant
                i <= n == data@.len(),
                elems == views(data@),
                1 <= b == block_len == blocks@.len(),
                n <= b * b,
                Self::blocks_hold_folds(views(blocks@), elems, i as int),
            decreases n - i,
        {
            proof {
                lemma_block_in_range(b, i as int);
                lemma_block_of(b, i as int);
            }
            let k = i / block_len;
            let ghost before = views(blocks@);
            let combined = T::op(&blocks[k], &data[i]);
            blocks[k] = combined;
            proof {
                let after = views(blocks@);
                assert forall|j: int| 0 <= j < b implies #[trigger] after[j] == range_fold::<E, T>(
                    elems,
                    block_start(b, i + 1, j),
                    block_start(b, i + 1, j + 1),
                ) by {
                    lemma_blocks_ordered(b, j, j + 1);
                    if j < k {
                        lemma_blocks_ordered(b, j, k as int);
                        assert(before[j] == after[j]);
                    } else if j > k {
                        lemma_blocks_ordered(b, k as int, j);
                        assert(before[j] == after[j]);
                    } else {
                        assert(before[k as int] == range_fold::<E, T>(
                            elems,
                            block_start(b, i as int, k as int),
                            block_start(b, i as int, k + 1),
                        ));
                        lemma_range_fold_step::<E, T>(elems, k * b, i as int);
                    }
                }
            }
            i += 1;
        }
        Self { alg: PhantomData, data, blocks }
    }
}

impl<E: View, T: Monoid<E>> FromSpecImpl<&[E]> for SquareRootDecomposition<E, T> {
    open spec fn obeys_from_spec() -> bool {
        false
    }

    open spec fn from_spec(a: &[E]) -> Self {
        choose|res: Self| res.wf() && res@ == views(a@)
    }
}

impl<E: View, T: Monoid<E>> From<&[E]> for SquareRootDecomposition<E, T> {
    fn from(a: &[E]) -> (res: Self)
        ensures
            res.wf(),
            res@ == views(a@),
    {
        Self::from(copy_slice::<E, T>(a))
    }
}

impl<E: View, T: Monoid<E>> BuildableWithSlice<E, T> for SquareRootDecomposition<E, T> {
    fn build_with(a: &[E]) -> (res: Self) {
        Self::from(a)
    }
}

impl<E: View, T: Monoid<E>> PointAssign<E, T> for SquareRootDecomposition<E, T> {
    fn set_at(&mut self, elem: E, index: usize) {
        let ghost b = self.spec_block_len();
        let ghost n = self@.len() as int;
        let ghost before = self@;
        proof {
            lemma_block_of(b, index as int);
            lemma_block_in_range(b, index as int);
        }
        let block_i = index / self.block_len();
        let start = block_i * self.block_len();
        let end = self.block_end(start, Ghost(block_i as int));
        self.data[index] = elem;
        assert(self@ =~= before.update(index as int, elem@));
        let refolded = self.naive_fold(start..end);
        let ghost blocks_before = views(self.blocks@);
        self.blocks[block_i] = refolded;
        proof {
            let blocks_after = views(self.blocks@);
            assert forall|k: int| 0 <= k < b implies #[trigger] blocks_after[k] == range_fold::<
                E,
                T,
            >(self@, block_start(b, n, k), block_start(b, n, k + 1)) by {
                lemma_blocks_ordered(b, k, k + 1);
                if k < block_i {
                    lemma_blocks_ordered(b, k, block_i as int);
                    lemma_range_fold_update_outside::<E, T>(
                        before,
                        index as int,
                        elem@,
                        block_start(b, n, k),
                        block_start(b, n, k + 1),
                    );
                    assert(blocks_before[k] == blocks_after[k]);
                } else if k > block_i {
                    lemma_blocks_ordered(b, block_i as int, k);
                    lemma_range_fold_update_outside::<E, T>(
                        before,
                        index as int,
                        elem@,
                        block_start(b, n, k),
                        block_start(b, n, k + 1),
                    );
                    assert(blocks_before[k] == blocks_after[k]);
                }
            }
        }
    }
}

impl<E: View, T: Monoid<E>> LeftFixedOp<E, T> for SquareRootDecomposition<E, T> {
    fn right_op(&mut self, r: usize) -> (res: E) {
        let ghost b = self.spec_block_len();
        let ghost n = self@.len() as int;
        let mut res = T::id();
        let mut i: usize = 0;
        let mut block: usize = 0;
        while block < self.block_len()
            invariant
                *self == *old(self),
                self.wf(),
                b == self.spec_block_len(),
                n == self@.len(),
                r <= n,
                block <= b,
                i == block_start(b, n, block as int),
                res@ == range_fold::<E, T>(self@, 0, if i <= r { i as int } else { r as int }),
            ensures
                res@ == range_fold::<E, T>(self@, 0, r as int),
            decreases b - block,
        {
            let j = self.block_end(i, Ghost(block as int));
            if j < r {
                proof {
                    self.lemma_block_is_fold(block as int);
                    lemma_range_fold_split::<E, T>(self@, 0, i as int, j as int);
                }
                res = T::op(&res, &self.blocks[block]);
            } else if i <= r {
                proof {
                    lemma_range_fold_split::<E, T>(self@, 0, i as int, r as int);
                }
                res = T::op(&res, &self.naive_fold(i..r));
            } else {
                break ;
            }
            i = j;
            block += 1;
        }
        res
    }
}

impl<E: View, T: Monoid<E>> RangeOp<E, T> for SquareRootDecomposition<E, T> {
    fn range_op(&mut self, range: Range<usize>) -> (res: E) {
        let ghost b = self.spec_block_len();
        let ghost n = self@.len() as int;
        let mut res = T::id();
        let mut i: usize = 0;
        let mut block: usize = 0;
        while block < self.block_len()
            invariant
                *self == *old(self),
                self.wf(),
                b == self.spec_block_len(),
                n == self@.len(),
                range.start <= range.end <= n,
                block <= b,
                i == block_start(b, n, block as int),
                res@ == range_fold::<E, T>(
                    self@,
                    range.start as int,
                    if i <= range.start {
                        range.start as int
                    } else if i <= range.end {
                        i as int
                    } else {
                        range.end as int
                    },
                ),
            decreases b - block,
        {
            let j = self.block_end(i, Ghost(block as int));
            if j < range.start || range.end < i {
                // The block lies outside the range.
            } else if range.start <= i && j <= range.end {
                proof {
                    self.lemma_block_is_fold(block as int);
                    lemma_range_fold_split::<E, T>(self@, range.start as int, i as int, j as int);
                }
                res = T::op(&res, &self.blocks[block]);
            } else {
                let lo = if range.start < i { i } else { range.start };
                let hi = if range.end < j { range.end } else { j };
                proof {
                    lemma_range_fold_split::<E, T>(self@, range.start as int, lo as int, hi as int);
                }
                res = T::op(&res, &self.naive_fold(lo..hi));
            }
            i = j;
            block += 1;
        }
        res
    }
}

} // verus!
