//! A binary tree of folds, flattened into a vector.
//!
//! With `m` leaves the vector has `2 * m` entries: entry `m + i` is leaf `i`,
//! entry `k` with `1 <= k < m` is the node whose children are entries `2 * k`
//! and `2 * k + 1`, and entry 0 is not used. `m` is a power of two. Leaves
//! past the end of the sequence hold the identity.
use vstd::prelude::*;
use vstd::arithmetic::power2::is_pow2;
use crate::algebra::Monoid;
use crate::algebra::fold::{fold, lemma_fold_concat, range_fold};
use crate::structure::ranged::{
    copy_slice, views, BuildableWithSlice, LeftFixedOp, PointAssign, RangeOp, Ranged,
};
use vstd::std_specs::convert::FromSpecImpl;
use std::marker::PhantomData;
use std::ops::Range;

verus! {

/// The leaves below node `k` of a tree with the given leaves, left to right.
pub open spec fn subtree<V>(leaves: Seq<V>, k: int) -> Seq<V>
    decreases 2 * leaves.len() - k,
{
    if k < 1 || k >= 2 * leaves.len() {
        Seq::empty()
    } else if k >= leaves.len() {
        seq![leaves[k - leaves.len()]]
    } else {
        subtree(leaves, 2 * k) + subtree(leaves, 2 * k + 1)
    }
}

/// The leaves below the nodes `l, l + 1, .., r - 1`, left to right.
pub open spec fn span<V>(leaves: Seq<V>, l: int, r: int) -> Seq<V>
    decreases r - l,
{
    if l >= r {
        Seq::empty()
    } else {
        span(leaves, l, r - 1) + subtree(leaves, r - 1)
    }
}

/// A span starts with the leaves below its first node.
pub proof fn lemma_span_front<V>(leaves: Seq<V>, l: int, r: int)
    requires
        l < r,
    ensures
        span(leaves, l, r) == subtree(leaves, l) + span(leaves, l + 1, r),
    decreases r - l,
{
    if l + 1 == r {
        assert(span(leaves, l, l) =~= Seq::empty());
    } else {
        lemma_span_front(leaves, l, r - 1);
    }
}

/// On the leaf level a span is a range of the leaves.
pub proof fn lemma_span_of_leaves<V>(leaves: Seq<V>, l: int, r: int)
    requires
        leaves.len() <= l <= r <= 2 * leaves.len(),
    ensures
        span(leaves, l, r) == leaves.subrange(l - leaves.len(), r - leaves.len()),
    decreases r - l,
{
    if l < r {
        lemma_span_of_leaves(leaves, l, r - 1);
    }
}

/// The children of the nodes `l .. r` span the same leaves as the nodes
/// themselves.
pub proof fn lemma_span_of_children<V>(leaves: Seq<V>, l: int, r: int)
    requires
        1 <= l <= r <= leaves.len(),
    ensures
        span(leaves, 2 * l, 2 * r) == span(leaves, l, r),
    decreases r - l,
{
    if l < r {
        lemma_span_of_children(leaves, l, r - 1);
        assert(span(leaves, 2 * l, 2 * r) =~= span(leaves, 2 * l, 2 * r - 2) + subtree(
            leaves,
            2 * r - 2,
        ) + subtree(leaves, 2 * r - 1)) by {
            assert(span(leaves, 2 * l, 2 * r - 1) == span(leaves, 2 * l, 2 * r - 2) + subtree(
                leaves,
                2 * r - 2,
            ));
        }
    }
}

/// Build: O(N), [`RangeOp`], [`LeftFixedOp`] and [`PointAssign`]: O(log N).
/// Needs a [`Monoid`] and nothing more: partial folds are only ever combined
/// in the order of the sequence.
pub struct SegmentTree<E, T> {
    alg: PhantomData<T>,
    data: Vec<E>,
    size: Ghost<nat>,
}

impl<E: View, T: Monoid<E>> SegmentTree<E, T> {
    /// The number of leaves.
    spec fn leaf_count(&self) -> int {
        self.data@.len() as int / 2
    }

    /// The nodes of the tree, by their index in the vector.
    spec fn nodes(&self) -> Seq<E::V> {
        views(self.data@)
    }

    /// The leaves of the tree: the sequence, then identities.
    spec fn leaves(&self) -> Seq<E::V> {
        self.nodes().subrange(self.leaf_count(), 2 * self.leaf_count())
    }

    /// Every inner node is the combination of its two children.
    spec fn inner_nodes_combine(nodes: Seq<E::V>, except: int) -> bool {
        forall|k: int|
            1 <= k < nodes.len() / 2 && k != except ==> #[trigger] nodes[k] == T::op_spec(
                nodes[2 * k],
                nodes[2 * k + 1],
            )
    }

    /// Every node is the fold of the leaves below it.
    proof fn lemma_node_is_fold(nodes: Seq<E::V>, k: int)
        requires
            nodes.len() % 2 == 0,
            1 <= k < nodes.len(),
            Self::inner_nodes_combine(nodes, 0),
        ensures
            nodes[k] == fold::<E, T>(
                subtree(nodes.subrange(nodes.len() as int / 2, nodes.len() as int), k),
            ),
        decreases nodes.len() - k,
    {
        let m = nodes.len() as int / 2;
        let leaves = nodes.subrange(m, 2 * m);
        if k >= m {
            let one = subtree(leaves, k);
            assert(fold::<E, T>(one.drop_last()) == T::id_spec());
            T::identity(nodes[k]);
        } else {
            Self::lemma_node_is_fold(nodes, 2 * k);
            Self::lemma_node_is_fold(nodes, 2 * k + 1);
            lemma_fold_concat::<E, T>(subtree(leaves, 2 * k), subtree(leaves, 2 * k + 1));
        }
    }

    /// The number of leaves.
    fn len(&self) -> (res: usize)
        ensures
            res == self.leaf_count(),
            self.data@.len() <= usize::MAX,
    {
        self.data.len() / 2
    }

    /// Folds the leaves in `[lo, hi)`: walks up from the two ends of the
    /// range, taking each node that hangs off the left end into a left
    /// accumulator and each node that hangs off the right end into a right
    /// one, until the ends meet.
    fn descend(&self, lo: usize, hi: usize) -> (res: E)
        requires
            self.wf(),
            lo <= hi <= self.leaf_count(),
        ensures
            res@ == range_fold::<E, T>(self.leaves(), lo as int, hi as int),
    {
        let ghost nodes = self.nodes();
        let ghost leaves = self.leaves();
        let ghost target = leaves.subrange(lo as int, hi as int);
        let mut res_left = T::id();
        let mut res_right = T::id();
        let mut l = lo + self.len();
        let mut r = hi + self.len();
        let ghost mut left = Seq::<E::V>::empty();
        let ghost mut right = Seq::<E::V>::empty();
        proof {
            lemma_span_of_leaves(leaves, l as int, r as int);
        }
        while l < r
            invariant
                self.wf(),
                nodes == self.nodes(),
                leaves == self.leaves(),
                l <= r <= self.data@.len(),
                l < r ==> 1 <= l,
                res_left@ == fold::<E, T>(left),
                res_right@ == fold::<E, T>(right),
                left + span(leaves, l as int, r as int) + right == target,
            decreases r,
        {
            if l % 2 == 1 {
                proof {
                    Self::lemma_node_is_fold(nodes, l as int);
                    lemma_fold_concat::<E, T>(left, subtree(leaves, l as int));
                    lemma_span_front(leaves, l as int, r as int);
                    left = left + subtree(leaves, l as int);
                }
                res_left = T::op(&res_left, &self.data[l]);
                l += 1;
            }
            if r % 2 == 1 {
                r -= 1;
                proof {
                    Self::lemma_node_is_fold(nodes, r as int);
                    lemma_fold_concat::<E, T>(subtree(leaves, r as int), right);
                    right = subtree(leaves, r as int) + right;
                }
                res_right = T::op(&self.data[r], &res_right);
            }
            proof {
                if l < r {
                    lemma_span_of_children(leaves, l as int / 2, r as int / 2);
                } else {
                    assert(span(leaves, l as int / 2, r as int / 2) =~= span(
                        leaves,
                        l as int,
                        r as int,
                    ));
                }
            }
            l /= 2;
            r /= 2;
        }
        proof {
            lemma_fold_concat::<E, T>(left, right);
        }
        T::op(&res_left, &res_right)
    }
}

impl<E: View, T: Monoid<E>> View for SegmentTree<E, T> {
    type V = Seq<E::V>;

    closed spec fn view(&self) -> Seq<E::V> {
        self.leaves().take(self.size@ as int)
    }
}

impl<E: View, T: Monoid<E>> Ranged<E> for SegmentTree<E, T> {
    closed spec fn wf(&self) -> bool {
        &&& self.data@.len() == 2 * self.leaf_count()
        &&& is_pow2(self.leaf_count())
        &&& self.size@ <= self.leaf_count()
        &&& self.leaf_count() == 1 || self.leaf_count() < 2 * self.size@
        &&& Self::inner_nodes_combine(self.nodes(), 0)
        &&& forall|i: int|
            self.size@ <= i < self.leaf_count() ==> #[trigger] self.leaves()[i] == T::id_spec()
    }
}

impl<E: View, T: Monoid<E>> PointAssign<E, T> for SegmentTree<E, T> {
    fn set_at(&mut self, elem: E, index: usize) {
        let ghost m = self.leaf_count();
        let mut node = index + self.len();
        let ghost before = self.nodes();
        self.data[node] = elem;
        proof {
            let after = self.nodes();
            assert forall|k: int|
                1 <= k < after.len() / 2 && k != node as int / 2 implies #[trigger] after[k]
                == T::op_spec(after[2 * k], after[2 * k + 1]) by {
                assert(before[k] == T::op_spec(before[2 * k], before[2 * k + 1]));
            }
        }
        while node > 1
            invariant
                1 <= node < self.data@.len(),
                self.data@.len() == 2 * m,
                m == self.leaf_count(),
                self.size == old(self).size,
                self.leaves() == old(self).leaves().update(index as int, elem@),
                Self::inner_nodes_combine(self.nodes(), node as int / 2),
            decreases node,
        {
            node /= 2;
            let ghost before = self.nodes();
            let combined = T::op(&self.data[node * 2], &self.data[node * 2 + 1]);
            self.data[node] = combined;
            proof {
                let after = self.nodes();
                assert forall|k: int|
                    1 <= k < after.len() / 2 && k != node as int / 2 implies #[trigger] after[k]
                    == T::op_spec(after[2 * k], after[2 * k + 1]) by {
                    if k != node {
                        assert(before[k] == T::op_spec(before[2 * k], before[2 * k + 1]));
                    }
                }
            }
        }
    }
}

impl<E: View, T: Monoid<E>> Clone for SegmentTree<E, T> {
    /// Returns a structure that stands for the same sequence.
    fn clone(&self) -> (res: Self)
        ensures
            res@ == self@,
            self.wf() ==> res.wf(),
    {
        let data = copy_slice::<E, T>(self.data.as_slice());
        assert(data@.len() == views(data@).len());
        Self { alg: PhantomData, data, size: self.size }
    }
}

impl<E: View, T: Monoid<E>> FromSpecImpl<Vec<E>> for SegmentTree<E, T> {
    open spec fn obeys_from_spec() -> bool {
        false
    }

    open spec fn from_spec(a: Vec<E>) -> Self {
        choose|res: Self| res.wf() && res@ == views(a@)
    }
}

impl<E: View, T: Monoid<E>> From<Vec<E>> for SegmentTree<E, T> {
    fn from(a: Vec<E>) -> (res: Self)
        ensures
            res.wf(),
            res@ == views(a@),
    {
        let mut a = a;
        let ghost input = views(a@);
        let n = a.len();
        // The inner half: identities, doubled until the leaf half can hold
        // the input.
        let mut data: Vec<E> = Vec::new();
        data.push(T::id());
        proof {
            reveal(is_pow2);
        }
        while data.len() < n
            invariant
                1 <= data@.len() <= usize::MAX,
                is_pow2(data@.len() as int),
                data@.len() == 1 || data@.len() < 2 * n,
                forall|k: int| 0 <= k < data@.len() ==> #[trigger] data@[k]@ == T::id_spec(),
            decreases usize::MAX - data@.len(),
        {
            let m = data.len();
            while data.len() - m < m
                invariant
                    1 <= m <= data@.len() <= 2 * m,
                    forall|k: int| 0 <= k < data@.len() ==> #[trigger] data@[k]@ == T::id_spec(),
                decreases 2 * m - data@.len(),
            {
                data.push(T::id());
            }
            proof {
                reveal(is_pow2);
            }
        }
        // The leaf half: the input, then identities.
        let m = data.len();
        data.append(&mut a);
        while data.len() - m < m
            invariant
                1 <= m,
                n <= m,
                is_pow2(m as int),
                m == 1 || m < 2 * n,
                input.len() == n,
                m + n <= data@.len() <= 2 * m,
                forall|k: int| 0 <= k < n ==> #[trigger] data@[m + k]@ == input[k],
                forall|k: int| m + n <= k < data@.len() ==> #[trigger] data@[k]@ == T::id_spec(),
            decreases 2 * m - data@.len(),
        {
            data.push(T::id());
        }
        // The inner nodes, bottom-up.
        let ghost leaves = views(data@).subrange(m as int, 2 * m);
        proof {
            assert forall|k: int| 0 <= k < m implies #[trigger] leaves[k] == (if k < n {
                input[k]
            } else {
                T::id_spec()
            }) by {
                assert(leaves[k] == data@[m + k]@);
            }
        }
        let mut i = m;
        while i > 1
            invariant
                1 <= i <= m,
                data@.len() == 2 * m <= usize::MAX,
                views(data@).subrange(m as int, 2 * m) == leaves,
                forall|k: int|
                    i <= k < m ==> #[trigger] views(data@)[k] == T::op_spec(
                        views(data@)[2 * k],
                        views(data@)[2 * k + 1],
                    ),
            decreases i,
        {
            i -= 1;
            let ghost before = views(data@);
            let combined = T::op(&data[i * 2], &data[i * 2 + 1]);
            data[i] = combined;
            assert(views(data@) =~= before.update(i as int, combined@));
        }
        Self { alg: PhantomData, data, size: Ghost(n as nat) }
    }
}

impl<E: View, T: Monoid<E>> FromSpecImpl<&[E]> for SegmentTree<E, T> {
    open spec fn obeys_from_spec() -> bool {
        false
    }

    open spec fn from_spec(a: &[E]) -> Self {
        choose|res: Self| res.wf() && res@ == views(a@)
    }
}

impl<E: View, T: Monoid<E>> From<&[E]> for SegmentTree<E, T> {
    fn from(a: &[E]) -> (res: Self)
        ensures
            res.wf(),
            res@ == views(a@),
    {
        Self::from(copy_slice::<E, T>(a))
    }
}

impl<E: View, T: Monoid<E>> BuildableWithSlice<E, T> for SegmentTree<E, T> {
    fn build_with(a: &[E]) -> (res: Self) {
        Self::from(a)
    }
}

impl<E: View, T: Monoid<E>> LeftFixedOp<E, T> for SegmentTree<E, T> {
    fn right_op(&mut self, r: usize) -> (res: E) {
        assert(self@.subrange(0, r as int) =~= self.leaves().subrange(0, r as int));
        self.descend(0, r)
    }
}

impl<E: View, T: Monoid<E>> RangeOp<E, T> for SegmentTree<E, T> {
    fn range_op(&mut self, range: Range<usize>) -> (res: E) {
        assert(self@.subrange(range.start as int, range.end as int) =~= self.leaves().subrange(
            range.start as int,
            range.end as int,
        ));
        self.descend(range.start, range.end)
    }
}

} // verus!
