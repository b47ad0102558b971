//! Folding a sequence with an operator, and the laws of folds that the range
//! structures rely on.
use vstd::prelude::*;
use crate::algebra::{Commutativity, Group, Idempotence, Monoid};

verus! {

/// The fold of `s`: its elements combined left to right, starting from the
/// identity.
pub open spec fn fold<E: View, T: Monoid<E>>(s: Seq<E::V>) -> E::V
    decreases s.len(),
{
    if s.len() == 0 {
        T::id_spec()
    } else {
        T::op_spec(fold::<E, T>(s.drop_last()), s.last())
    }
}

/// The fold of the elements of `s` whose index lies in `[l, r)`.
pub open spec fn range_fold<E: View, T: Monoid<E>>(s: Seq<E::V>, l: int, r: int) -> E::V {
    fold::<E, T>(s.subrange(l, r))
}

/// The fold of the first `r` elements of `s`.
pub open spec fn prefix_fold<E: View, T: Monoid<E>>(s: Seq<E::V>, r: int) -> E::V {
    fold::<E, T>(s.take(r))
}

/// A prefix fold is the fold of the range that starts at 0.
pub proof fn lemma_prefix_fold_is_range_fold<E: View, T: Monoid<E>>(s: Seq<E::V>, r: int)
    requires
        0 <= r <= s.len(),
    ensures
        prefix_fold::<E, T>(s, r) == range_fold::<E, T>(s, 0, r),
{
}

/// The fold of an empty range is the identity.
pub proof fn lemma_range_fold_empty<E: View, T: Monoid<E>>(s: Seq<E::V>, i: int)
    requires
        0 <= i <= s.len(),
    ensures
        range_fold::<E, T>(s, i, i) == T::id_spec(),
{
}

/// Extending a range by one element on the right combines that element into
/// the fold.
pub proof fn lemma_range_fold_step<E: View, T: Monoid<E>>(s: Seq<E::V>, l: int, r: int)
    requires
        0 <= l <= r < s.len(),
    ensures
        range_fold::<E, T>(s, l, r + 1) == T::op_spec(range_fold::<E, T>(s, l, r), s[r]),
{
    assert(s.subrange(l, r + 1).drop_last() =~= s.subrange(l, r));
}

/// The fold of a range of width one is its element.
pub proof fn lemma_range_fold_single<E: View, T: Monoid<E>>(s: Seq<E::V>, i: int)
    requires
        0 <= i < s.len(),
    ensures
        range_fold::<E, T>(s, i, i + 1) == s[i],
{
    lemma_range_fold_step::<E, T>(s, i, i);
    T::identity(s[i]);
}

/// The fold of a concatenation is the combination of the two folds.
pub proof fn lemma_fold_concat<E: View, T: Monoid<E>>(a: Seq<E::V>, b: Seq<E::V>)
    ensures
        fold::<E, T>(a + b) == T::op_spec(fold::<E, T>(a), fold::<E, T>(b)),
    decreases b.len(),
{
    if b.len() == 0 {
        T::identity(fold::<E, T>(a));
    } else {
        assert((a + b).drop_last() =~= a + b.drop_last());
        lemma_fold_concat::<E, T>(a, b.drop_last());
        T::associative(fold::<E, T>(a), fold::<E, T>(b.drop_last()), b.last());
    }
}

/// A range splits at any inner point into two adjacent ranges whose folds
/// combine to the fold of the whole.
pub proof fn lemma_range_fold_split<E: View, T: Monoid<E>>(s: Seq<E::V>, l: int, m: int, r: int)
    requires
        0 <= l <= m <= r <= s.len(),
    ensures
        range_fold::<E, T>(s, l, r) == T::op_spec(
            range_fold::<E, T>(s, l, m),
            range_fold::<E, T>(s, m, r),
        ),
{
    assert(s.subrange(l, r) =~= s.subrange(l, m) + s.subrange(m, r));
    lemma_fold_concat::<E, T>(s.subrange(l, m), s.subrange(m, r));
}

/// Replacing an element outside a range leaves the fold of the range as it
/// was.
pub proof fn lemma_range_fold_update_outside<E: View, T: Monoid<E>>(
    s: Seq<E::V>,
    index: int,
    v: E::V,
    l: int,
    r: int,
)
    requires
        0 <= l <= r <= s.len(),
        0 <= index < s.len(),
        index < l || r <= index,
    ensures
        range_fold::<E, T>(s.update(index, v), l, r) == range_fold::<E, T>(s, l, r),
{
    assert(s.update(index, v).subrange(l, r) =~= s.subrange(l, r));
}

/// Replacing an element inside a range puts the new element in the old one's
/// place in the fold: what lies to its left and to its right is kept.
pub proof fn lemma_range_fold_update_inside<E: View, T: Monoid<E>>(
    s: Seq<E::V>,
    index: int,
    v: E::V,
    l: int,
    r: int,
)
    requires
        0 <= l <= index < r <= s.len(),
    ensures
        range_fold::<E, T>(s.update(index, v), l, r) == T::op_spec(
            T::op_spec(range_fold::<E, T>(s, l, index), v),
            range_fold::<E, T>(s, index + 1, r),
        ),
{
    let u = s.update(index, v);
    lemma_range_fold_split::<E, T>(u, l, index + 1, r);
    lemma_range_fold_step::<E, T>(u, l, index);
    lemma_range_fold_update_outside::<E, T>(s, index, v, l, index);
    lemma_range_fold_update_outside::<E, T>(s, index, v, index + 1, r);
}

/// With a commutative operator, combining `x` into one element of a range
/// combines `x` into the fold of the range.
pub proof fn lemma_range_fold_point_op<E: View, T: Monoid<E> + Commutativity<E>>(
    s: Seq<E::V>,
    index: int,
    x: E::V,
    l: int,
    r: int,
)
    requires
        0 <= l <= index < r <= s.len(),
    ensures
        range_fold::<E, T>(s.update(index, T::op_spec(s[index], x)), l, r) == T::op_spec(
            range_fold::<E, T>(s, l, r),
            x,
        ),
{
    let left = range_fold::<E, T>(s, l, index);
    let right = range_fold::<E, T>(s, index + 1, r);
    lemma_range_fold_update_inside::<E, T>(s, index, T::op_spec(s[index], x), l, r);
    lemma_range_fold_split::<E, T>(s, l, index + 1, r);
    lemma_range_fold_step::<E, T>(s, l, index);
    // (left . (e . x)) . right == ((left . e) . right) . x
    T::associative(left, s[index], x);
    T::associative(T::op_spec(left, s[index]), x, right);
    T::commutative(x, right);
    T::associative(T::op_spec(left, s[index]), right, x);
}

/// With an invertible, commutative operator, the fold of `[l, r)` is the
/// prefix fold up to `r` combined with the inverse of the prefix fold up to
/// `l`.
pub proof fn lemma_range_fold_by_difference<E: View, T: Group<E> + Commutativity<E>>(
    s: Seq<E::V>,
    l: int,
    r: int,
)
    requires
        0 <= l <= r <= s.len(),
    ensures
        range_fold::<E, T>(s, l, r) == T::op_spec(
            range_fold::<E, T>(s, 0, r),
            T::inv_spec(range_fold::<E, T>(s, 0, l)),
        ),
{
    let head = range_fold::<E, T>(s, 0, l);
    let rest = range_fold::<E, T>(s, l, r);
    lemma_range_fold_split::<E, T>(s, 0, l, r);
    // (head . rest) . inv(head) == inv(head) . (head . rest) == rest
    T::commutative(T::op_spec(head, rest), T::inv_spec(head));
    T::associative(T::inv_spec(head), head, rest);
    T::inverse(head);
    T::identity(rest);
}

/// With an idempotent operator, two windows that together cover `[l, r)` and
/// overlap in the middle fold to the fold of `[l, r)`: counting the overlap
/// twice does no harm.
pub proof fn lemma_range_fold_overlap<E: View, T: Monoid<E> + Idempotence<E>>(
    s: Seq<E::V>,
    l: int,
    r: int,
    d: int,
)
    requires
        0 <= l <= r <= s.len(),
        0 <= d <= r - l <= 2 * d,
    ensures
        range_fold::<E, T>(s, l, r) == T::op_spec(
            range_fold::<E, T>(s, l, l + d),
            range_fold::<E, T>(s, r - d, r),
        ),
{
    let a = range_fold::<E, T>(s, l, r - d);
    let b = range_fold::<E, T>(s, r - d, l + d);
    let c = range_fold::<E, T>(s, l + d, r);
    lemma_range_fold_split::<E, T>(s, l, r - d, l + d);
    lemma_range_fold_split::<E, T>(s, r - d, l + d, r);
    lemma_range_fold_split::<E, T>(s, l, r - d, r);
    // (a . b) . (b . c) == a . ((b . b) . c) == a . (b . c)
    T::associative(a, b, T::op_spec(b, c));
    T::associative(b, b, c);
    T::idempotent(b);
}

} // verus!
