use monoid_ranges::algebra::typical::{AdditiveStruct, MaxMonoid, StringChain};
use monoid_ranges::structure::ranged::naive_vec::NaiveVec;
use monoid_ranges::structure::ranged::square_root_decomposition::SquareRootDecomposition;
use monoid_ranges::structure::ranged::{BuildableWithSlice, LeftFixedOp, PointAssign, RangeOp};

#[test]
fn sqrt_dec_max() {
    let x = vec![3, 1, 4, 1, 5, 9, 2, 6, 5, 3, 5, 8];
    let mut nv = NaiveVec::<i32, MaxMonoid>::from(x.clone());
    let mut srd = SquareRootDecomposition::<i32, MaxMonoid>::from(x.clone());
    println!("{:?}", srd);
    for i in 0..=x.len() {
        assert_eq!(srd.right_op(i), nv.right_op(i));
    }
    for i in 0..=x.len() {
        for j in i..=x.len() {
            assert_eq!(srd.range_op(i..j), nv.range_op(i..j));
        }
    }
    for (i, x) in vec![2, 7, 1, 8, 2, 8].into_iter().enumerate() {
        nv.set_at(x, i);
        srd.set_at(x, i);
    }
    for i in 0..=x.len() {
        assert_eq!(srd.right_op(i), nv.right_op(i));
    }
    for i in 0..=x.len() {
        for j in i..=x.len() {
            assert_eq!(srd.range_op(i..j), nv.range_op(i..j));
        }
    }
}

#[test]
fn sqrt_dec_string_chain() {
    let x = vec![
        "wow",
        "that",
        "is",
        "mississippi",
        "where",
        "alligators",
        "are",
        "glowing",
        "and",
        "glowing",
        "",
        "!",
    ]
    .into_iter()
    .map(String::from)
    .collect::<Vec<_>>();
    let mut nv = NaiveVec::<String, StringChain>::from(x.as_slice());
    let mut srd = SquareRootDecomposition::<String, StringChain>::from(x.as_slice());
    for i in 0..=x.len() {
        assert_eq!(srd.right_op(i), nv.right_op(i));
    }
    for i in 0..=x.len() {
        for j in i..=x.len() {
            assert_eq!(srd.range_op(i..j), nv.range_op(i..j));
        }
    }
    for (i, x) in vec!["what", "the", "f@dk", "is", "this"]
        .into_iter()
        .map(String::from)
        .enumerate()
    {
        nv.set_at(x.clone(), i);
        srd.set_at(x.clone(), i);
    }
    for i in 0..=x.len() {
        assert_eq!(srd.right_op(i), nv.right_op(i));
    }
    for i in 0..=x.len() {
        for j in i..=x.len() {
            assert_eq!(srd.range_op(i..j), nv.range_op(i..j));
        }
    }
}

#[test]
fn sqrt_dec_max_scenario() {
    let x = vec![3, 1, 4, 1, 5, 9, 2, 6, 5, 3, 5];
    let mut srd = SquareRootDecomposition::<i32, MaxMonoid>::from(x);
    assert_eq!(srd.range_op(2..5), 5);
    assert_eq!(srd.right_op(0), i32::MIN);
    assert_eq!(srd.range_op(0..11), 9);
    srd.set_at(8, 5);
    assert_eq!(srd.range_op(0..11), 8);
    assert_eq!(srd.range_op(0..5), 5);
    assert_eq!(srd.range_op(6..11), 6);
}

#[test]
fn sqrt_dec_sum_scenario() {
    let x = vec![3, 1, 4, 1, 5, 9, 2, 6, 5, 3, 5];
    let mut srd = SquareRootDecomposition::<i32, AdditiveStruct>::from(x);
    assert_eq!(srd.range_op(0..11), 44);
    assert_eq!(srd.right_op(5), 14);
}

#[test]
fn sqrt_dec_block_len_is_the_ceiling_of_the_root() {
    let want = [
        (0usize, 1usize),
        (1, 1),
        (2, 2),
        (3, 2),
        (4, 2),
        (5, 3),
        (9, 3),
        (10, 4),
        (12, 4),
        (16, 4),
        (17, 5),
        (100, 10),
        (101, 11),
    ];
    for (n, b) in want {
        let srd = SquareRootDecomposition::<u32, AdditiveStruct>::from(vec![1u32; n]);
        assert_eq!(srd.block_len(), b);
    }
}

#[test]
fn sqrt_dec_naive_fold_folds_the_slice() {
    let x: Vec<String> = ["a", "b", "c", "d", "e"].into_iter().map(String::from).collect();
    let srd = <SquareRootDecomposition<String, StringChain> as BuildableWithSlice<
        String,
        StringChain,
    >>::build_with(&x);
    assert_eq!(srd.naive_fold(0..5), "abcde");
    assert_eq!(srd.naive_fold(1..3), "bc");
    assert_eq!(srd.naive_fold(4..4), "");
}

#[test]
fn sqrt_dec_every_length_up_to_forty() {
    for n in 0..=40usize {
        let x: Vec<String> = (0..n).map(|k| format!("<{}>", k)).collect();
        let mut srd = SquareRootDecomposition::<String, StringChain>::from(x.clone());
        for i in 0..=n {
            for j in i..=n {
                assert_eq!(srd.range_op(i..j), x[i..j].concat());
            }
        }
        for index in 0..n {
            srd.set_at(format!("[{}]", index), index);
            assert_eq!(srd.range_op(index..index + 1), format!("[{}]", index));
        }
        let y: Vec<String> = (0..n).map(|k| format!("[{}]", k)).collect();
        for r in 0..=n {
            assert_eq!(srd.right_op(r), y[..r].concat());
        }
    }
}
