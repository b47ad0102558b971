use monoid_ranges::algebra::typical::{MaxMonoid, MinMonoid};
use monoid_ranges::structure::ranged::naive_vec::NaiveVec;
use monoid_ranges::structure::ranged::sparse_table::SparseTable;
use monoid_ranges::structure::ranged::{BuildableWithSlice, RangeOp};

#[test]
fn sparse_table_sparse_min() {
    let x = vec![3, 1, 4, 1, 5, 9, 2, 6, 5, 3, 5];
    let mut st = SparseTable::<i32, MaxMonoid>::from(x.clone());
    let mut nv = NaiveVec::<i32, MaxMonoid>::from(x.clone());
    for i in 0..=x.len() {
        for j in i..=x.len() {
            assert_eq!(st.range_op(i..j), nv.range_op(i..j), "{:?}", i..j);
        }
    }
}

#[test]
fn sparse_overlap_scenario() {
    let mut st = SparseTable::<i32, MaxMonoid>::from(vec![3, 1, 4, 1, 5]);
    assert_eq!(st.range_op(1..4), 4);
    assert_eq!(st.range_op(0..5), 5);
    assert_eq!(st.range_op(0..2), 3);
    assert_eq!(st.range_op(3..4), 1);
    assert_eq!(st.range_op(2..2), i32::MIN);
}

#[test]
fn sparse_max_scenario() {
    let x = vec![3, 1, 4, 1, 5, 9, 2, 6, 5, 3, 5];
    let mut st = SparseTable::<i32, MaxMonoid>::from(x);
    assert_eq!(st.range_op(2..5), 5);
    assert_eq!(st.range_op(0..0), i32::MIN);
    assert_eq!(st.range_op(0..11), 9);
}

#[test]
fn sparse_min_every_length_up_to_forty() {
    for n in 0..=40usize {
        let x: Vec<u32> = (0..n as u32).map(|k| (k * 37 + 11) % 23).collect();
        let mut st = <SparseTable<u32, MinMonoid> as BuildableWithSlice<u32, MinMonoid>>::build_with(&x);
        for i in 0..=n {
            for j in i..=n {
                let want = x[i..j].iter().copied().min().unwrap_or(u32::MAX);
                assert_eq!(st.range_op(i..j), want, "{:?}", i..j);
            }
        }
    }
}

#[test]
fn sparse_debug_shows_the_table() {
    let st = SparseTable::<i32, MaxMonoid>::from(vec![3, 1]);
    let text = format!("{:?}", st);
    assert!(text.contains("doubling"));
    assert!(text.contains("[[3, 3], [1, 1]]"));
}
