use monoid_ranges::algebra::typical::{AdditiveStruct, MaxMonoid};
use monoid_ranges::structure::ranged::accumulative_array::AccumulativeArray;
use monoid_ranges::structure::ranged::fenwick_tree::FenwickTree;
use monoid_ranges::structure::ranged::naive_vec::NaiveVec;
use monoid_ranges::structure::ranged::segment_tree::SegmentTree;
use monoid_ranges::structure::ranged::sparse_table::SparseTable;
use monoid_ranges::structure::ranged::square_root_decomposition::SquareRootDecomposition;
use monoid_ranges::structure::ranged::{copy_of, copy_slice, LeftFixedOp, PointAssign, RangeOp};

fn sample(n: usize) -> Vec<i64> {
    let mut state: u64 = 0x9e37_79b9_7f4a_7c15;
    (0..n)
        .map(|_| {
            state = state
                .wrapping_mul(6364136223846793005)
                .wrapping_add(1442695040888963407);
            ((state >> 33) as i64 % 1000) - 500
        })
        .collect()
}

#[test]
fn every_structure_answers_as_the_plain_sequence_under_addition() {
    for n in [0usize, 1, 2, 3, 7, 8, 9, 31, 32, 33] {
        let x = sample(n);
        let mut nv = NaiveVec::<i64, AdditiveStruct>::from(x.clone());
        let mut ac = AccumulativeArray::<i64, AdditiveStruct>::from(x.clone());
        let mut ft = FenwickTree::<i64, AdditiveStruct>::from(x.clone());
        let mut st = SegmentTree::<i64, AdditiveStruct>::from(x.clone());
        let mut srd = SquareRootDecomposition::<i64, AdditiveStruct>::from(x.clone());
        for i in 0..=n {
            for j in i..=n {
                let want: i64 = x[i..j].iter().sum();
                assert_eq!(nv.range_op(i..j), want);
                assert_eq!(ac.range_op(i..j), want);
                assert_eq!(ft.range_op(i..j), want);
                assert_eq!(st.range_op(i..j), want);
                assert_eq!(srd.range_op(i..j), want);
            }
        }
    }
}

#[test]
fn every_structure_answers_as_the_plain_sequence_under_max() {
    for n in [0usize, 1, 2, 3, 7, 8, 9, 31, 32, 33] {
        let x = sample(n);
        let mut nv = NaiveVec::<i64, MaxMonoid>::from(x.clone());
        let mut st = SegmentTree::<i64, MaxMonoid>::from(x.clone());
        let mut sp = SparseTable::<i64, MaxMonoid>::from(x.clone());
        let mut srd = SquareRootDecomposition::<i64, MaxMonoid>::from(x.clone());
        for i in 0..=n {
            for j in i..=n {
                let want = x[i..j].iter().copied().max().unwrap_or(i64::MIN);
                assert_eq!(nv.range_op(i..j), want);
                assert_eq!(st.range_op(i..j), want);
                assert_eq!(sp.range_op(i..j), want);
                assert_eq!(srd.range_op(i..j), want);
            }
        }
    }
}

#[test]
fn a_prefix_fold_is_the_range_fold_from_zero() {
    let x = sample(20);
    let mut nv = NaiveVec::<i64, AdditiveStruct>::from(x.clone());
    let mut ac = AccumulativeArray::<i64, AdditiveStruct>::from(x.clone());
    let mut ft = FenwickTree::<i64, AdditiveStruct>::from(x.clone());
    let mut st = SegmentTree::<i64, AdditiveStruct>::from(x.clone());
    let mut srd = SquareRootDecomposition::<i64, AdditiveStruct>::from(x.clone());
    for r in 0..=20 {
        assert_eq!(nv.right_op(r), nv.range_op(0..r));
        assert_eq!(ac.right_op(r), ac.range_op(0..r));
        assert_eq!(ft.right_op(r), ft.range_op(0..r));
        assert_eq!(st.right_op(r), st.range_op(0..r));
        assert_eq!(srd.right_op(r), srd.range_op(0..r));
    }
}

#[test]
fn an_empty_range_folds_to_the_identity() {
    let x = sample(10);
    let mut nv = NaiveVec::<i64, MaxMonoid>::from(x.clone());
    let mut st = SegmentTree::<i64, MaxMonoid>::from(x.clone());
    let mut sp = SparseTable::<i64, MaxMonoid>::from(x.clone());
    let mut srd = SquareRootDecomposition::<i64, MaxMonoid>::from(x.clone());
    let mut ac = AccumulativeArray::<i64, AdditiveStruct>::from(x.clone());
    let mut ft = FenwickTree::<i64, AdditiveStruct>::from(x.clone());
    for i in 0..=10 {
        assert_eq!(nv.range_op(i..i), i64::MIN);
        assert_eq!(st.range_op(i..i), i64::MIN);
        assert_eq!(sp.range_op(i..i), i64::MIN);
        assert_eq!(srd.range_op(i..i), i64::MIN);
        assert_eq!(ac.range_op(i..i), 0);
        assert_eq!(ft.range_op(i..i), 0);
    }
}

#[test]
fn an_assignment_shows_in_the_folds_that_touch_it_and_in_no_other() {
    let x = sample(13);
    let index = 6;
    let value = 4242;
    let mut nv = NaiveVec::<i64, AdditiveStruct>::from(x.clone());
    let mut ft = FenwickTree::<i64, AdditiveStruct>::from(x.clone());
    let mut st = SegmentTree::<i64, AdditiveStruct>::from(x.clone());
    let mut srd = SquareRootDecomposition::<i64, AdditiveStruct>::from(x.clone());
    nv.set_at(value, index);
    ft.set_at(value, index);
    st.set_at(value, index);
    srd.set_at(value, index);
    for i in 0..=13 {
        for j in i..=13 {
            let old: i64 = x[i..j].iter().sum();
            let want = if i <= index && index < j {
                old - x[index] + value
            } else {
                old
            };
            assert_eq!(nv.range_op(i..j), want);
            assert_eq!(ft.range_op(i..j), want);
            assert_eq!(st.range_op(i..j), want);
            assert_eq!(srd.range_op(i..j), want);
        }
    }
}

#[test]
fn a_copy_is_equal_to_what_it_copies() {
    assert_eq!(copy_of::<i64, AdditiveStruct>(&17), 17);
    assert_eq!(copy_of::<i64, MaxMonoid>(&-17), -17);
    assert_eq!(copy_slice::<i64, MaxMonoid>(&[3, -1, 4]), vec![3, -1, 4]);
    assert_eq!(copy_slice::<i64, MaxMonoid>(&[]), Vec::<i64>::new());
}

#[test]
fn a_clone_stands_for_the_same_sequence_and_is_independent() {
    let x = sample(9);
    let mut nv = NaiveVec::<i64, AdditiveStruct>::from(x.clone());
    let mut ac = AccumulativeArray::<i64, AdditiveStruct>::from(x.clone());
    let mut ft = FenwickTree::<i64, AdditiveStruct>::from(x.clone());
    let mut st = SegmentTree::<i64, AdditiveStruct>::from(x.clone());
    let mut sp = SparseTable::<i64, MaxMonoid>::from(x.clone());
    let mut srd = SquareRootDecomposition::<i64, AdditiveStruct>::from(x.clone());
    let mut nv2 = nv.clone();
    let mut ac2 = ac.clone();
    let mut ft2 = ft.clone();
    let mut st2 = st.clone();
    let mut sp2 = sp.clone();
    let mut srd2 = srd.clone();
    nv.set_at(1000, 4);
    ft.set_at(1000, 4);
    st.set_at(1000, 4);
    srd.set_at(1000, 4);
    for i in 0..=9 {
        for j in i..=9 {
            let sum: i64 = x[i..j].iter().sum();
            let max = x[i..j].iter().copied().max().unwrap_or(i64::MIN);
            assert_eq!(nv2.range_op(i..j), sum);
            assert_eq!(ac2.range_op(i..j), sum);
            assert_eq!(ac.range_op(i..j), sum);
            assert_eq!(ft2.range_op(i..j), sum);
            assert_eq!(st2.range_op(i..j), sum);
            assert_eq!(srd2.range_op(i..j), sum);
            assert_eq!(sp2.range_op(i..j), max);
            assert_eq!(sp.range_op(i..j), max);
        }
    }
    assert_eq!(nv.range_op(4..5), 1000);
    assert_eq!(ft.range_op(4..5), 1000);
    assert_eq!(st.range_op(4..5), 1000);
    assert_eq!(srd.range_op(4..5), 1000);
}

#[test]
fn interleaved_updates_and_queries_agree_with_the_plain_sequence() {
    for n in [1usize, 2, 5, 16, 17, 50] {
        let mut plain = sample(n);
        let updates = sample(3 * n);
        let mut nv = NaiveVec::<i64, AdditiveStruct>::from(plain.clone());
        let mut ft = FenwickTree::<i64, AdditiveStruct>::from(plain.clone());
        let mut st = SegmentTree::<i64, AdditiveStruct>::from(plain.clone());
        let mut srd = SquareRootDecomposition::<i64, AdditiveStruct>::from(plain.clone());
        for (step, value) in updates.into_iter().enumerate() {
            let index = (step * 7 + 3) % n;
            if step % 3 == 0 {
                plain[index] += value;
                nv.point_op_assign(index, &value);
                ft.point_op_assign(index, &value);
                let current = st.range_op(index..index + 1);
                st.set_at(current + value, index);
                let current = srd.range_op(index..index + 1);
                srd.set_at(current + value, index);
            } else {
                plain[index] = value;
                nv.set_at(value, index);
                ft.set_at(value, index);
                st.set_at(value, index);
                srd.set_at(value, index);
            }
            let l = (step * 5) % (n + 1);
            let r = l + (step * 11) % (n + 1 - l);
            let want: i64 = plain[l..r].iter().sum();
            assert_eq!(nv.range_op(l..r), want);
            assert_eq!(ft.range_op(l..r), want);
            assert_eq!(st.range_op(l..r), want);
            assert_eq!(srd.range_op(l..r), want);
            let prefix: i64 = plain[..r].iter().sum();
            assert_eq!(nv.right_op(r), prefix);
            assert_eq!(ft.right_op(r), prefix);
            assert_eq!(st.right_op(r), prefix);
            assert_eq!(srd.right_op(r), prefix);
        }
    }
}
