use monoid_ranges::algebra::typical::{AdditiveStruct, BitXorGroup, MaxMonoid, StringChain};
use monoid_ranges::structure::ranged::accumulative_array::AccumulativeArray;
use monoid_ranges::structure::ranged::naive_vec::NaiveVec;
use monoid_ranges::structure::ranged::{BuildableWithSlice, LeftFixedOp, RangeOp};

#[test]
fn acc_sum() {
    let x = vec![3, 1, 4, 1, 5, 9, 2, 6, 5, 3, 5];
    let mut nv = NaiveVec::<i32, AdditiveStruct>::from(x.clone());
    let mut ac = AccumulativeArray::<i32, AdditiveStruct>::from(x.clone());
    for i in 0..=x.len() {
        assert_eq!(ac.right_op(i), nv.right_op(i));
    }
    for i in 0..=x.len() {
        for j in i..=x.len() {
            assert_eq!(ac.range_op(i..j), nv.range_op(i..j));
        }
    }
}

#[test]
fn acc_sum_scenario() {
    let x = vec![3, 1, 4, 1, 5, 9, 2, 6, 5, 3, 5];
    let mut ac = AccumulativeArray::<i32, AdditiveStruct>::from(x);
    assert_eq!(ac.range_op(0..11), 44);
    assert_eq!(ac.right_op(5), 14);
    assert_eq!(ac.right_op(0), 0);
    assert_eq!(ac.range_op(2..5), 10);
    assert_eq!(ac.range_op(5..5), 0);
}

#[test]
fn acc_prefix_maxima() {
    let x = vec![3, 1, 4, 1, 5, 9, 2, 6, 5, 3, 5];
    let mut ac = AccumulativeArray::<i32, MaxMonoid>::from(x);
    let want = [i32::MIN, 3, 3, 4, 4, 5, 9, 9, 9, 9, 9, 9];
    for r in 0..=11 {
        assert_eq!(ac.right_op(r), want[r]);
    }
}

#[test]
fn acc_prefix_strings_keep_their_order() {
    let x: Vec<String> = ["a", "b", "", "cd"].into_iter().map(String::from).collect();
    let mut ac = AccumulativeArray::<String, StringChain>::from(x.as_slice());
    assert_eq!(ac.right_op(0), "");
    assert_eq!(ac.right_op(1), "a");
    assert_eq!(ac.right_op(2), "ab");
    assert_eq!(ac.right_op(3), "ab");
    assert_eq!(ac.right_op(4), "abcd");
}

#[test]
fn acc_xor_ranges() {
    let x = vec![0b1010u32, 0b0110, 0b1111, 0b0001];
    let mut ac = <AccumulativeArray<u32, BitXorGroup> as BuildableWithSlice<u32, BitXorGroup>>::build_with(&x);
    assert_eq!(ac.range_op(0..2), 0b1100);
    assert_eq!(ac.range_op(1..4), 0b1000);
    assert_eq!(ac.range_op(0..4), 0b0010);
    assert_eq!(ac.range_op(3..3), 0);
}

#[test]
fn acc_empty_sequence() {
    let mut ac = AccumulativeArray::<i64, AdditiveStruct>::from(Vec::new());
    assert_eq!(ac.right_op(0), 0);
    assert_eq!(ac.range_op(0..0), 0);
}
