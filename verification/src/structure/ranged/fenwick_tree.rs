//! A binary-indexed tree.
//!
//! Over a sequence of `n` elements the tree keeps `n + 1` entries. Entry `j`,
//! for `1 <= j <= n`, holds the fold of the `low_bit(j)` elements that end at
//! element `j - 1`; entry 0 is not used. The next entry whose range takes in
//! the range of `j` is `j + low_bit(j)`, and the range of `j` starts where the
//! range of `j - low_bit(j)` ends.
use vstd::prelude::*;
use crate::algebra::{Commutativity, Group, Monoid};
use crate::algebra::fold::{
    lemma_range_fold_by_difference, lemma_range_fold_point_op, lemma_range_fold_single,
    lemma_range_fold_split, lemma_range_fold_step, lemma_range_fold_update_outside, range_fold,
};
use crate::structure::ranged::{
    copy_slice, views, BuildableWithSlice, LeftFixedOp, PointAssign, RangeOp, Ranged,
};
use vstd::std_specs::convert::FromSpecImpl;
use std::marker::PhantomData;
use std::ops::Range;

verus! {

/// The lowest set bit of `x`, as a number.
pub open spec fn low_bit64(x: u64) -> u64 {
    x & !((x - 1) as u64)
}

/// The lowest set bit of `i`, as a number.
pub open spec fn low_bit(i: int) -> int {
    low_bit64(i as u64) as int
}

/// How far the range of entry `j` has been folded into it when the entries up
/// to `k` have been completed: up to `j` itself if `j` is among them, else up
/// to the last completed entry that hands its fold on to `j`, and not at all
/// if there is none.
pub open spec fn covered(j: int, k: int) -> int
    decreases k,
{
    if k >= j {
        j
    } else if k <= 0 {
        j - low_bit(j)
    } else if k + low_bit(k) == j {
        k
    } else {
        covered(j, k - 1)
    }
}

proof fn lemma_low_bit64_bounds(x: u64)
    by (bit_vector)
    requires
        x >= 1,
    ensures
        1 <= low_bit64(x) <= x,
{
}

proof fn lemma_low_bit64_by_negation(x: u64, neg: u64)
    by (bit_vector)
    requires
        x >= 1,
        neg == (0x1_0000_0000_0000_0000 - x) as u64,
    ensures
        low_bit64(x) == x & neg,
{
}

proof fn lemma_low_bit64_parent(k: u64, j: u64)
    by (bit_vector)
    requires
        k >= 1,
        k + low_bit64(k) == j,
    ensures
        j - low_bit64(j) <= k - low_bit64(k),
{
}

proof fn lemma_low_bit64_parent_start(i: u64, m: u64, j: u64)
    by (bit_vector)
    requires
        i >= 1,
        m == i - low_bit64(i),
        j == i + low_bit64(i),
    ensures
        j - low_bit64(j) == m || (m >= 1 && m + low_bit64(m) == j),
{
}

proof fn lemma_low_bit64_inside(i: u64, k: u64)
    by (bit_vector)
    requires
        i >= 1,
        i - low_bit64(i) < k < i,
    ensures
        k + low_bit64(k) <= i,
{
}

proof fn lemma_low_bit64_between(i: u64, j: u64)
    by (bit_vector)
    requires
        i >= 1,
        i < j < i + low_bit64(i),
    ensures
        j - low_bit64(j) >= i,
{
}

proof fn lemma_low_bit64_odd(i: u64)
    by (bit_vector)
    requires
        i >= 2,
        (i - 1) + low_bit64((i - 1) as u64) != i,
    ensures
        low_bit64(i) == 1,
{
}

/// The lowest set bit of a positive number is positive and no larger than
/// the number.
pub proof fn lemma_low_bit_bounds(i: int)
    requires
        1 <= i <= u64::MAX,
    ensures
        1 <= low_bit(i) <= i,
{
    lemma_low_bit64_bounds(i as u64);
}

/// The range of `k + low_bit(k)` takes in the range of `k`.
pub proof fn lemma_low_bit_parent(k: int)
    requires
        1 <= k,
        k + low_bit(k) <= u64::MAX,
    ensures
        1 <= low_bit(k) <= k,
        (k + low_bit(k)) - low_bit(k + low_bit(k)) <= k - low_bit(k),
{
    lemma_low_bit64_bounds(k as u64);
    lemma_low_bit64_parent(k as u64, (k + low_bit(k)) as u64);
}

/// An entry strictly between `i` and `i + low_bit(i)` has a range that
/// starts at `i` or after it.
pub proof fn lemma_low_bit_between(i: int, j: int)
    requires
        1 <= i,
        i < j < i + low_bit(i),
        j <= u64::MAX,
    ensures
        i <= j - low_bit(j),
{
    lemma_low_bit64_between(i as u64, j as u64);
}

/// Before any entry of its range is completed, nothing has been folded into
/// entry `j`.
proof fn lemma_covered_before_range(j: int, k: int)
    requires
        1 <= j <= u64::MAX,
        k <= j - low_bit(j),
    ensures
        covered(j, k) == j - low_bit(j),
    decreases k,
{
    if k >= 1 {
        if k + low_bit(k) == j {
            lemma_low_bit_parent(k);
        }
        lemma_covered_before_range(j, k - 1);
    }
}

/// When the entries below `i` are completed, entry `i` lacks only element
/// `i - 1`.
proof fn lemma_covered_self(i: int)
    requires
        1 <= i <= u64::MAX,
    ensures
        covered(i, i - 1) == i - 1,
{
    lemma_low_bit_bounds(i);
    if i >= 2 {
        if (i - 1) + low_bit(i - 1) != i {
            lemma_low_bit64_odd(i as u64);
            lemma_covered_before_range(i, i - 2);
        }
    }
}

/// While the entries inside the range of `i` are completed, what has been
/// folded into `i + low_bit(i)` ends where the range of `i` starts.
proof fn lemma_covered_parent(i: int, k: int)
    requires
        1 <= i,
        i + low_bit(i) <= u64::MAX,
        i - low_bit(i) <= k < i,
    ensures
        covered(i + low_bit(i), k) == i - low_bit(i),
    decreases k,
{
    let m = i - low_bit(i);
    let j = i + low_bit(i);
    lemma_low_bit_bounds(i);
    if k == m {
        lemma_low_bit64_parent_start(i as u64, m as u64, j as u64);
        if j - low_bit(j) == m {
            lemma_covered_before_range(j, m);
        }
    } else {
        lemma_low_bit64_inside(i as u64, k as u64);
        lemma_covered_parent(i, k - 1);
    }
}

/// Returns the lowest set bit of `i`, isolated by two's-complement negation.
fn lowest_set_bit(i: usize) -> (res: usize)
    requires
        1 <= i,
    ensures
        res == low_bit(i as int),
        1 <= res <= i,
{
    let x = i as u64;
    proof {
        lemma_low_bit64_by_negation(x, 0u64.wrapping_sub(x));
        lemma_low_bit64_bounds(x);
    }
    (x & 0u64.wrapping_sub(x)) as usize
}

/// Build: O(N), [`LeftFixedOp`]: O(logN), needs [`Monoid`].
///
/// For [`Commutativity`], `point_op_assign`: O(logN).
///
/// For [`Group`] and [`Commutativity`], [`RangeOp`] and [`PointAssign`]:
/// O(logN). An element is assigned by combining the inverse of the old one
/// and then the new one into it, which is why assignment asks for both.
pub struct FenwickTree<E: View, T> {
    alg: PhantomData<T>,
    data: Vec<E>,
    elems: Ghost<Seq<E::V>>,
}

impl<E: View, T: Monoid<E>> View for FenwickTree<E, T> {
    type V = Seq<E::V>;

    closed spec fn view(&self) -> Seq<E::V> {
        self.elems@
    }
}

impl<E: View, T: Monoid<E>> Ranged<E> for FenwickTree<E, T> {
    closed spec fn wf(&self) -> bool {
        &&& self.data@.len() == self.elems@.len() + 1 <= usize::MAX
        &&& Self::entries_hold_folds(views(self.data@), self.elems@, self.elems@.len() as int)
    }
}

impl<E: View, T: Monoid<E>> FenwickTree<E, T> {
    /// Every entry holds the fold of its range as far as the entries up to
    /// `upto` have been completed.
    spec fn entries_hold_folds(entries: Seq<E::V>, elems: Seq<E::V>, upto: int) -> bool {
        forall|j: int|
            1 <= j < entries.len() ==> #[trigger] entries[j] == range_fold::<E, T>(
                elems,
                j - low_bit(j),
                covered(j, upto),
            )
    }

    /// An entry of a well-formed tree is the fold of its range.
    proof fn lemma_entry_is_fold(&self, j: int)
        requires
            self.wf(),
            1 <= j <= self@.len(),
        ensures
            self.data@[j]@ == range_fold::<E, T>(self@, j - low_bit(j), j),
    {
        assert(views(self.data@)[j] == self.data@[j]@);
    }

    /// Returns `n + 1` identities.
    fn identities(n: usize) -> (data: Vec<E>)
        ensures
            data@.len() == n + 1 <= usize::MAX,
            forall|k: int| 0 <= k <= n ==> #[trigger] data@[k]@ == T::id_spec(),
    {
        let mut data: Vec<E> = Vec::new();
        data.push(T::id());
        while data.len() <= n
            invariant
                1 <= data@.len() <= n + 1,
                forall|k: int| 0 <= k < data@.len() ==> #[trigger] data@[k]@ == T::id_spec(),
            decreases n + 1 - data@.len(),
        {
            data.push(T::id());
        }
        data
    }

    /// Returns the tree over `n` identities.
    pub fn new(n: usize) -> (res: Self)
        ensures
            res.wf(),
            res@ == Seq::new(n as nat, |i: int| T::id_spec()),
    {
        let data = Self::identities(n);
        let ghost elems = Seq::new(n as nat, |i: int| T::id_spec());
        proof {
            assert forall|j: int| 1 <= j <= n implies #[trigger] views(data@)[j] == range_fold::<
                E,
                T,
            >(elems, j - low_bit(j), covered(j, n as int)) by {
                lemma_low_bit_bounds(j);
                Self::lemma_fold_of_identities(elems, j - low_bit(j), j);
            }
        }
        Self { alg: PhantomData, data, elems: Ghost(elems) }
    }

    /// A range of identities folds to the identity.
    proof fn lemma_fold_of_identities(s: Seq<E::V>, l: int, r: int)
        requires
            0 <= l <= r <= s.len(),
            forall|i: int| 0 <= i < s.len() ==> s[i] == T::id_spec(),
        ensures
            range_fold::<E, T>(s, l, r) == T::id_spec(),
        decreases r - l,
    {
        if l < r {
            Self::lemma_fold_of_identities(s, l, r - 1);
            lemma_range_fold_step::<E, T>(s, l, r - 1);
            T::identity(T::id_spec());
        }
    }
}

impl<E: View, T: Monoid<E>> Clone for FenwickTree<E, T> {
    /// Returns a structure that stands for the same sequence.
    fn clone(&self) -> (res: Self)
        ensures
            res@ == self@,
            self.wf() ==> res.wf(),
    {
        let data = copy_slice::<E, T>(self.data.as_slice());
        assert(data@.len() == views(data@).len());
        Self { alg: PhantomData, data, elems: self.elems }
    }
}

impl<E: View, T: Monoid<E>> FromSpecImpl<Vec<E>> for FenwickTree<E, T> {
    open spec fn obeys_from_spec() -> bool {
        false
    }

    open spec fn from_spec(a: Vec<E>) -> Self {
        choose|res: Self| res.wf() && res@ == views(a@)
    }
}

impl<E: View, T: Monoid<E>> From<Vec<E>> for FenwickTree<E, T> {
    fn from(a: Vec<E>) -> (res: Self)
        ensures
            res.wf(),
            res@ == views(a@),
    {
        let n = a.len();
        let ghost elems = views(a@);
        let mut data = Self::identities(n);
        proof {
            assert forall|j: int| 1 <= j <= n implies #[trigger] views(data@)[j] == range_fold::<
                E,
                T,
            >(elems, j - low_bit(j), covered(j, 0)) by {
                lemma_low_bit_bounds(j);
            }
        }
        let mut done: usize = 0;
        while done < n
            invariant
                done <= n == a@.len(),
                elems == views(a@),
                data@.len() == n + 1 <= usize::MAX,
                Self::entries_hold_folds(views(data@), elems, done as int),
            decreases n - done,
        {
            let i = done + 1;
            let ghost before = views(data@);
            let seeded = T::op(&data[i], &a[done]);
            data[i] = seeded;
            let step = lowest_set_bit(i);
            let ghost mut after = views(data@);
            proof {
                lemma_covered_self(i as int);
                lemma_range_fold_step::<E, T>(elems, i - low_bit(i as int), done as int);
                assert(before[i as int] == range_fold::<E, T>(
                    elems,
                    i - low_bit(i as int),
                    covered(i as int, done as int),
                ));
            }
            if step <= n - i {
                let j = i + step;
                let handed_on = T::op(&data[j], &data[i]);
                data[j] = handed_on;
                proof {
                    lemma_low_bit_parent(i as int);
                    lemma_low_bit_bounds(j as int);
                    lemma_covered_parent(i as int, done as int);
                    lemma_range_fold_split::<E, T>(
                        elems,
                        j - low_bit(j as int),
                        i - low_bit(i as int),
                        i as int,
                    );
                    assert(before[j as int] == range_fold::<E, T>(
                        elems,
                        j - low_bit(j as int),
                        covered(j as int, done as int),
                    ));
                    after = views(data@);
                }
            }
            proof {
                assert forall|j: int| 1 <= j <= n implies #[trigger] after[j] == range_fold::<E, T>(
                    elems,
                    j - low_bit(j),
                    covered(j, i as int),
                ) by {
                    if j != i && j != i + step {
                        assert(before[j] == after[j]);
                    }
                }
            }
            done = i;
        }
        Self { alg: PhantomData, data, elems: Ghost(elems) }
    }
}

impl<E: View, T: Monoid<E>> FromSpecImpl<&[E]> for FenwickTree<E, T> {
    open spec fn obeys_from_spec() -> bool {
        false
    }

    open spec fn from_spec(a: &[E]) -> Self {
        choose|res: Self| res.wf() && res@ == views(a@)
    }
}

impl<E: View, T: Monoid<E>> From<&[E]> for FenwickTree<E, T> {
    fn from(a: &[E]) -> (res: Self)
        ensures
            res.wf(),
            res@ == views(a@),
    {
        Self::from(copy_slice::<E, T>(a))
    }
}

impl<E: View, T: Monoid<E>> BuildableWithSlice<E, T> for FenwickTree<E, T> {
    fn build_with(a: &[E]) -> (res: Self) {
        Self::from(a)
    }
}

impl<E: View, T: Commutativity<E> + Group<E>> PointAssign<E, T> for FenwickTree<E, T> {
    fn set_at(&mut self, elem: E, index: usize) {
        let ghost before = self@;
        let current = self.range_op(index..index + 1);
        let inverse = T::inv(&current);
        self.point_op_assign(index, &inverse);
        self.point_op_assign(index, &elem);
        proof {
            lemma_range_fold_single::<E, T>(before, index as int);
            T::inverse(before[index as int]);
            T::identity(elem@);
        }
    }
}

impl<E: View, T: Monoid<E> + Commutativity<E>> FenwickTree<E, T> {
    /// Combines `rhs` into the element at `index`; every other element
    /// stays.
    pub fn point_op_assign(&mut self, index: usize, rhs: &E)
        requires
            old(self).wf(),
            index < old(self)@.len(),
        ensures
            final(self).wf(),
            final(self)@ == old(self)@.update(
                index as int,
                T::op_spec(old(self)@[index as int], rhs@),
            ),
    {
        let ghost before = self@;
        let ghost after = before.update(index as int, T::op_spec(before[index as int], rhs@));
        let ghost n = before.len() as int;
        let mut i = index + 1;
        proof {
            lemma_low_bit_bounds(i as int);
            assert forall|j: int| 1 <= j <= index implies #[trigger] views(self.data@)[j]
                == range_fold::<E, T>(after, j - low_bit(j), j) by {
                lemma_low_bit_bounds(j);
                lemma_range_fold_update_outside::<E, T>(
                    before,
                    index as int,
                    T::op_spec(before[index as int], rhs@),
                    j - low_bit(j),
                    j,
                );
            }
        }
        while i < self.data.len()
            invariant
                self.elems@ == before,
                before.len() == n,
                self.data@.len() == n + 1,
                after == before.update(index as int, T::op_spec(before[index as int], rhs@)),
                0 <= index < n,
                index < i,
                i <= n ==> i - low_bit(i as int) <= index,
                forall|j: int|
                    1 <= j <= n ==> #[trigger] views(self.data@)[j] == range_fold::<E, T>(
                        if j < i {
                            after
                        } else {
                            before
                        },
                        j - low_bit(j),
                        j,
                    ),
            decreases n + 1 - i,
        {
            let ghost entries = views(self.data@);
            let combined = T::op(&self.data[i], rhs);
            self.data[i] = combined;
            let step = lowest_set_bit(i);
            let next = if step < self.data.len() - i {
                i + step
            } else {
                self.data.len()
            };
            proof {
                lemma_range_fold_point_op::<E, T>(
                    before,
                    index as int,
                    rhs@,
                    i - low_bit(i as int),
                    i as int,
                );
                assert(entries[i as int] == range_fold::<E, T>(
                    before,
                    i - low_bit(i as int),
                    i as int,
                ));
                assert forall|j: int| 1 <= j <= n implies #[trigger] views(self.data@)[j]
                    == range_fold::<E, T>(
                    if j < next {
                        after
                    } else {
                        before
                    },
                    j - low_bit(j),
                    j,
                ) by {
                    if j != i {
                        assert(entries[j] == views(self.data@)[j]);
                        if i < j < next {
                            lemma_low_bit_between(i as int, j);
                            lemma_range_fold_update_outside::<E, T>(
                                before,
                                index as int,
                                T::op_spec(before[index as int], rhs@),
                                j - low_bit(j),
                                j,
                            );
                        }
                    }
                }
                if next <= n {
                    lemma_low_bit_parent(i as int);
                }
            }
            i = next;
        }
        self.elems = Ghost(after);
    }
}

impl<E: View, T: Monoid<E>> LeftFixedOp<E, T> for FenwickTree<E, T> {
    fn right_op(&mut self, r: usize) -> (res: E) {
        let mut res = T::id();
        let mut cur = r;
        while cur > 0
            invariant
                *self == *old(self),
                self.wf(),
                cur <= r <= self@.len(),
                res@ == range_fold::<E, T>(self@, cur as int, r as int),
            decreases cur,
        {
            let step = lowest_set_bit(cur);
            proof {
                self.lemma_entry_is_fold(cur as int);
                lemma_range_fold_split::<E, T>(self@, cur - step, cur as int, r as int);
            }
            res = T::op(&self.data[cur], &res);
            cur -= step;
        }
        res
    }
}

impl<E: View, T> RangeOp<E, T> for FenwickTree<E, T> where T: Group<E> + Commutativity<E> {
    fn range_op(&mut self, range: Range<usize>) -> (res: E) {
        let r = self.right_op(range.end);
        let l = self.right_op(range.start);
        proof {
            lemma_range_fold_by_difference::<E, T>(self@, range.start as int, range.end as int);
        }
        T::op(&r, &T::inv(&l))
    }
}

} // verus!
