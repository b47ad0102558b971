use monoid_ranges::algebra::typical::{AdditiveStruct, MaxMonoid, MinMonoid};
use monoid_ranges::algebra::{Magma, Monoid};
use monoid_ranges::structure::ranged::naive_vec::NaiveVec;
use monoid_ranges::structure::ranged::{BuildableWithSlice, LeftFixedOp, PointAssign, RangeOp};

#[test]
fn naive_vec_sparse_min() {
    let x = vec![3, 1, 4, 1, 5, 9, 2, 6, 5, 3, 5];
    let mut nv = NaiveVec::<i32, MinMonoid>::from(x.clone());
    for i in 0..=x.len() {
        for j in i..=x.len() {
            let naive = x[i..j]
                .iter()
                .fold(MinMonoid::id(), |acc, x| MinMonoid::op(&acc, x));
            assert_eq!(nv.range_op(i..j), naive);
        }
    }
}

#[test]
fn naive_max_scenario() {
    let x = vec![3, 1, 4, 1, 5, 9, 2, 6, 5, 3, 5];
    let mut nv = NaiveVec::<i32, MaxMonoid>::from(x.clone());
    assert_eq!(nv.range_op(2..5), 5);
    assert_eq!(nv.right_op(0), i32::MIN);
    assert_eq!(nv.range_op(0..11), 9);
    nv.set_at(8, 5);
    assert_eq!(nv.range_op(0..11), 8);
}

#[test]
fn naive_min_exact_values() {
    let x = vec![3, 1, 4, 1, 5, 9, 2, 6, 5, 3, 5];
    let mut nv = NaiveVec::<i32, MinMonoid>::from(x);
    assert_eq!(nv.range_op(0..1), 3);
    assert_eq!(nv.range_op(4..6), 5);
    assert_eq!(nv.range_op(4..7), 2);
    assert_eq!(nv.range_op(0..11), 1);
    assert_eq!(nv.range_op(7..7), i32::MAX);
}

#[test]
fn naive_sum_scenario() {
    let x = vec![3, 1, 4, 1, 5, 9, 2, 6, 5, 3, 5];
    let mut nv = NaiveVec::<i32, AdditiveStruct>::from(x);
    assert_eq!(nv.range_op(0..11), 44);
    assert_eq!(nv.right_op(5), 14);
}

#[test]
fn naive_point_op_assign_combines_from_the_right() {
    let mut nv = NaiveVec::<i64, AdditiveStruct>::from(vec![10i64, 20, 30]);
    nv.point_op_assign(1, &5);
    assert_eq!(nv.range_op(1..2), 25);
    assert_eq!(nv.range_op(0..1), 10);
    assert_eq!(nv.range_op(2..3), 30);
    assert_eq!(nv.range_op(0..3), 65);
}

#[test]
fn naive_build_with_copies_the_slice() {
    let x = [4u64, 7, 1];
    let mut a = NaiveVec::<u64, MaxMonoid>::build_with(&x);
    let mut b = <NaiveVec<u64, MaxMonoid> as BuildableWithSlice<u64, MaxMonoid>>::build_with(&x);
    let mut c = NaiveVec::<u64, MaxMonoid>::from(&x[..]);
    for i in 0..=3 {
        for j in i..=3 {
            let want = x[i..j].iter().copied().max().unwrap_or(0);
            assert_eq!(a.range_op(i..j), want);
            assert_eq!(b.range_op(i..j), want);
            assert_eq!(c.range_op(i..j), want);
        }
    }
}

#[test]
fn naive_empty_sequence() {
    let mut nv = NaiveVec::<i32, AdditiveStruct>::from(Vec::new());
    assert_eq!(nv.range_op(0..0), 0);
    assert_eq!(nv.right_op(0), 0);
}
