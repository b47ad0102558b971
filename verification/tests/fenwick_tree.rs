use monoid_ranges::algebra::typical::{AdditiveStruct, BitXorGroup, MaxMonoid, StringChain};
use monoid_ranges::structure::ranged::fenwick_tree::FenwickTree;
use monoid_ranges::structure::ranged::naive_vec::NaiveVec;
use monoid_ranges::structure::ranged::{BuildableWithSlice, LeftFixedOp, PointAssign, RangeOp};

#[test]
fn fenwick_sum() {
    let x = vec![3, 1, 4, 1, 5, 9, 2, 6, 5, 3, 5];
    let mut nv = NaiveVec::<i32, AdditiveStruct>::from(x.clone());
    let mut ft = FenwickTree::<i32, AdditiveStruct>::from(x.clone());
    for i in 0..=x.len() {
        assert_eq!(ft.right_op(i), nv.right_op(i));
    }
    for i in 0..=x.len() {
        for j in i..=x.len() {
            assert_eq!(ft.range_op(i..j), nv.range_op(i..j));
        }
    }
    for (i, x) in vec![2, 7, 1, 8, 2, 8].into_iter().enumerate() {
        nv.point_op_assign(i, &x);
        ft.point_op_assign(i, &x);
    }
    for i in 0..=x.len() {
        assert_eq!(ft.right_op(i), nv.right_op(i));
    }
    for i in 0..=x.len() {
        for j in i..=x.len() {
            assert_eq!(ft.range_op(i..j), nv.range_op(i..j));
        }
    }
}

#[test]
fn fenwick_sum_scenario() {
    let x = vec![3, 1, 4, 1, 5, 9, 2, 6, 5, 3, 5];
    let mut ft = FenwickTree::<i32, AdditiveStruct>::from(x);
    assert_eq!(ft.range_op(0..11), 44);
    assert_eq!(ft.right_op(5), 14);
    assert_eq!(ft.right_op(0), 0);
    assert_eq!(ft.range_op(4..4), 0);
}

#[test]
fn fenwick_new_is_all_identity() {
    let mut ft = FenwickTree::<i64, AdditiveStruct>::new(7);
    for r in 0..=7 {
        assert_eq!(ft.right_op(r), 0);
    }
    ft.point_op_assign(3, &5);
    ft.point_op_assign(6, &-2);
    let want = [0, 0, 0, 0, 5, 5, 5, 3];
    for r in 0..=7 {
        assert_eq!(ft.right_op(r), want[r]);
    }
    let mut none = FenwickTree::<i64, AdditiveStruct>::new(0);
    assert_eq!(none.right_op(0), 0);
}

#[test]
fn fenwick_set_at_replaces_the_element() {
    let x = vec![3i64, 1, 4, 1, 5, 9, 2, 6, 5, 3, 5];
    let mut ft = FenwickTree::<i64, AdditiveStruct>::from(x.clone());
    ft.set_at(8, 5);
    assert_eq!(ft.range_op(5..6), 8);
    assert_eq!(ft.range_op(0..11), 43);
    assert_eq!(ft.range_op(0..5), 14);
    assert_eq!(ft.range_op(6..11), 21);
    let mut y = x.clone();
    y[5] = 8;
    for (index, value) in [(0usize, -4i64), (10, 100), (7, 0), (0, 9)] {
        ft.set_at(value, index);
        y[index] = value;
        for i in 0..=y.len() {
            for j in i..=y.len() {
                assert_eq!(ft.range_op(i..j), y[i..j].iter().sum::<i64>());
            }
        }
    }
}

#[test]
fn fenwick_xor_set_at() {
    let mut x = vec![1u64, 2, 4, 8, 16];
    let mut ft = FenwickTree::<u64, BitXorGroup>::from(x.clone());
    assert_eq!(ft.range_op(0..5), 31);
    ft.set_at(7, 2);
    x[2] = 7;
    for i in 0..=5 {
        for j in i..=5 {
            assert_eq!(ft.range_op(i..j), x[i..j].iter().fold(0, |a, b| a ^ b));
        }
    }
}

#[test]
fn fenwick_prefix_keeps_the_order_of_the_sequence() {
    let x: Vec<String> = ["a", "b", "c", "d", "e", "f", "g"]
        .into_iter()
        .map(String::from)
        .collect();
    let mut ft = FenwickTree::<String, StringChain>::from(x.as_slice());
    let want = ["", "a", "ab", "abc", "abcd", "abcde", "abcdef", "abcdefg"];
    for r in 0..=7 {
        assert_eq!(ft.right_op(r), want[r]);
    }
}

#[test]
fn fenwick_prefix_maxima() {
    let x = vec![3, 1, 4, 1, 5, 9, 2, 6, 5, 3, 5];
    let mut ft = FenwickTree::<i32, MaxMonoid>::from(x);
    let want = [i32::MIN, 3, 3, 4, 4, 5, 9, 9, 9, 9, 9, 9];
    for r in 0..=11 {
        assert_eq!(ft.right_op(r), want[r]);
    }
    ft.point_op_assign(0, &7);
    let want = [i32::MIN, 7, 7, 7, 7, 7, 9, 9, 9, 9, 9, 9];
    for r in 0..=11 {
        assert_eq!(ft.right_op(r), want[r]);
    }
}

#[test]
fn fenwick_every_length_up_to_forty() {
    for n in 0..=40usize {
        let x: Vec<i64> = (0..n as i64).map(|k| k * k - 7 * k + 1).collect();
        let mut ft = FenwickTree::<i64, AdditiveStruct>::from(x.clone());
        for r in 0..=n {
            assert_eq!(ft.right_op(r), x[..r].iter().sum::<i64>());
        }
        for index in 0..n {
            ft.point_op_assign(index, &(index as i64));
        }
        for r in 0..=n {
            let want: i64 = x[..r].iter().sum::<i64>() + (0..r as i64).sum::<i64>();
            assert_eq!(ft.right_op(r), want);
        }
    }
}

#[test]
fn fenwick_build_with_copies_the_slice() {
    let x = [5i32, -3, 8, 0, 2];
    let mut ft = <FenwickTree<i32, AdditiveStruct> as BuildableWithSlice<i32, AdditiveStruct>>::build_with(&x);
    let mut from_slice = FenwickTree::<i32, AdditiveStruct>::from(&x[..]);
    let want = [0, 5, 2, 10, 10, 12];
    for r in 0..=5 {
        assert_eq!(ft.right_op(r), want[r]);
        assert_eq!(from_slice.right_op(r), want[r]);
    }
}
