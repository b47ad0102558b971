use monoid_ranges::algebra::typical::{AdditiveStruct, MaxMonoid, StringChain};
use monoid_ranges::structure::ranged::naive_vec::NaiveVec;
use monoid_ranges::structure::ranged::segment_tree::SegmentTree;
use monoid_ranges::structure::ranged::{BuildableWithSlice, LeftFixedOp, PointAssign, RangeOp};

#[test]
fn seg_max() {
    let x = vec![3, 1, 4, 1, 5, 9, 2, 6, 5, 3, 5];
    let mut nv = NaiveVec::<i32, MaxMonoid>::from(x.clone());
    let mut st = SegmentTree::<i32, MaxMonoid>::from(x.clone());
    for i in 0..=x.len() {
        assert_eq!(st.right_op(i), nv.right_op(i));
    }
    for i in 0..=x.len() {
        for j in i..=x.len() {
            assert_eq!(st.range_op(i..j), nv.range_op(i..j));
        }
    }
    for (i, x) in vec![2, 7, 1, 8, 2, 8].into_iter().enumerate() {
        nv.set_at(x, i);
        st.set_at(x, i);
    }
    for i in 0..=x.len() {
        assert_eq!(st.right_op(i), nv.right_op(i));
    }
    for i in 0..=x.len() {
        for j in i..=x.len() {
            assert_eq!(st.range_op(i..j), nv.range_op(i..j));
        }
    }
}

#[test]
fn seg_string_chain() {
    let x = vec![
        "wow",
        "that",
        "is",
        "mississippi",
        "where",
        "alligators",
        "are",
        "glowing",
        "and",
        "glowing",
        "",
        "!",
    ]
    .into_iter()
    .map(String::from)
    .collect::<Vec<_>>();
    let mut nv = NaiveVec::<String, StringChain>::from(x.as_slice());
    let mut st = SegmentTree::<String, StringChain>::from(x.as_slice());
    for i in 0..=x.len() {
        assert_eq!(st.right_op(i), nv.right_op(i));
    }
    for i in 0..=x.len() {
        for j in i..=x.len() {
            assert_eq!(st.range_op(i..j), nv.range_op(i..j));
        }
    }
    for (i, x) in vec!["what", "the", "f@dk", "is", "this"]
        .into_iter()
        .map(String::from)
        .enumerate()
    {
        nv.set_at(x.clone(), i);
        st.set_at(x.clone(), i);
    }
    for i in 0..=x.len() {
        assert_eq!(st.right_op(i), nv.right_op(i));
    }
    for i in 0..=x.len() {
        for j in i..=x.len() {
            assert_eq!(st.range_op(i..j), nv.range_op(i..j));
        }
    }
}

#[test]
fn seg_max_scenario() {
    let x = vec![3, 1, 4, 1, 5, 9, 2, 6, 5, 3, 5];
    let mut st = SegmentTree::<i32, MaxMonoid>::from(x);
    assert_eq!(st.range_op(2..5), 5);
    assert_eq!(st.right_op(0), i32::MIN);
    assert_eq!(st.range_op(0..11), 9);
    st.set_at(8, 5);
    assert_eq!(st.range_op(0..11), 8);
    assert_eq!(st.range_op(0..5), 5);
    assert_eq!(st.range_op(6..11), 6);
}

#[test]
fn seg_sum_scenario() {
    let x = vec![3, 1, 4, 1, 5, 9, 2, 6, 5, 3, 5];
    let mut st = SegmentTree::<i32, AdditiveStruct>::from(x);
    assert_eq!(st.range_op(0..11), 44);
    assert_eq!(st.right_op(5), 14);
}

#[test]
fn seg_whole_sequence_of_a_power_of_two_length() {
    for n in [1usize, 2, 4, 8, 16] {
        let x: Vec<u64> = (1..=n as u64).collect();
        let mut st = SegmentTree::<u64, AdditiveStruct>::from(x.clone());
        let total = (n * (n + 1) / 2) as u64;
        assert_eq!(st.right_op(n), total);
        assert_eq!(st.range_op(0..n), total);
        for r in 0..=n {
            assert_eq!(st.right_op(r), (r * (r + 1) / 2) as u64);
        }
    }
}

#[test]
fn seg_strings_exact_values() {
    let x: Vec<String> = ["a", "b", "c", "d", "e"].into_iter().map(String::from).collect();
    let mut st = <SegmentTree<String, StringChain> as BuildableWithSlice<String, StringChain>>::build_with(&x);
    assert_eq!(st.range_op(0..5), "abcde");
    assert_eq!(st.range_op(1..4), "bcd");
    assert_eq!(st.range_op(2..3), "c");
    assert_eq!(st.range_op(3..3), "");
    assert_eq!(st.right_op(2), "ab");
    st.set_at(String::from("XY"), 2);
    assert_eq!(st.range_op(0..5), "abXYde");
    assert_eq!(st.range_op(0..2), "ab");
    assert_eq!(st.range_op(3..5), "de");
    st.set_at(String::from("!"), 4);
    assert_eq!(st.range_op(0..5), "abXYd!");
}

#[test]
fn seg_every_length_up_to_forty() {
    for n in 0..=40usize {
        let x: Vec<String> = (0..n).map(|k| format!("<{}>", k)).collect();
        let mut st = SegmentTree::<String, StringChain>::from(x.clone());
        for i in 0..=n {
            for j in i..=n {
                assert_eq!(st.range_op(i..j), x[i..j].concat());
            }
        }
        for index in 0..n {
            st.set_at(format!("[{}]", index), index);
            assert_eq!(st.range_op(index..index + 1), format!("[{}]", index));
        }
        let y: Vec<String> = (0..n).map(|k| format!("[{}]", k)).collect();
        for r in 0..=n {
            assert_eq!(st.right_op(r), y[..r].concat());
        }
    }
}

#[test]
fn seg_empty_sequence() {
    let mut st = SegmentTree::<i32, MaxMonoid>::from(Vec::new());
    assert_eq!(st.range_op(0..0), i32::MIN);
    assert_eq!(st.right_op(0), i32::MIN);
}
