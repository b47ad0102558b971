//! [`MinMonoid`]: the smaller of two numbers, with the greatest number as the
//! identity.
use vstd::prelude::*;
use crate::algebra::{Commutativity, Idempotence, Magma, Monoid, Semigroup};
use crate::algebra::typical::MinMonoid;
use crate::algebra::typical::bounds::{
    max_value_i8, max_value_i16, max_value_i32, max_value_i64, max_value_i128,
    max_value_isize, max_value_u8, max_value_u16, max_value_u32, max_value_u64,
    max_value_u128, max_value_usize,
};

verus! {

impl Magma<i8> for MinMonoid {
    open spec fn op_spec(lhs: i8, rhs: i8) -> i8 {
        if lhs <= rhs {
            lhs
        } else {
            rhs
        }
    }

    fn op(lhs: &i8, rhs: &i8) -> (res: i8) {
        (*lhs).min(*rhs)
    }
}

impl Semigroup<i8> for MinMonoid {
    proof fn associative(a: i8, b: i8, c: i8) {
    }
}

impl Monoid<i8> for MinMonoid {
    open spec fn id_spec() -> i8 {
        i8::MAX
    }

    fn id() -> (res: i8) {
        max_value_i8()
    }

    proof fn identity(a: i8) {
    }
}

impl Idempotence<i8> for MinMonoid {
    proof fn idempotent(a: i8) {
    }
}

impl Commutativity<i8> for MinMonoid {
    proof fn commutative(a: i8, b: i8) {
    }
}

impl Magma<i16> for MinMonoid {
    open spec fn op_spec(lhs: i16, rhs: i16) -> i16 {
        if lhs <= rhs {
            lhs
        } else {
            rhs
        }
    }

    fn op(lhs: &i16, rhs: &i16) -> (res: i16) {
        (*lhs).min(*rhs)
    }
}

impl Semigroup<i16> for MinMonoid {
    proof fn associative(a: i16, b: i16, c: i16) {
    }
}

impl Monoid<i16> for MinMonoid {
    open spec fn id_spec() -> i16 {
        i16::MAX
    }

    fn id() -> (res: i16) {
        max_value_i16()
    }

    proof fn identity(a: i16) {
    }
}

impl Idempotence<i16> for MinMonoid {
    proof fn idempotent(a: i16) {
    }
}

impl Commutativity<i16> for MinMonoid {
    proof fn commutative(a: i16, b: i16) {
    }
}

impl Magma<i32> for MinMonoid {
    open spec fn op_spec(lhs: i32, rhs: i32) -> i32 {
        if lhs <= rhs {
            lhs
        } else {
            rhs
        }
    }

    fn op(lhs: &i32, rhs: &i32) -> (res: i32) {
        (*lhs).min(*rhs)
    }
}

impl Semigroup<i32> for MinMonoid {
    proof fn associative(a: i32, b: i32, c: i32) {
    }
}

impl Monoid<i32> for MinMonoid {
    open spec fn id_spec() -> i32 {
        i32::MAX
    }

    fn id() -> (res: i32) {
        max_value_i32()
    }

    proof fn identity(a: i32) {
    }
}

impl Idempotence<i32> for MinMonoid {
    proof fn idempotent(a: i32) {
    }
}

impl Commutativity<i32> for MinMonoid {
    proof fn commutative(a: i32, b: i32) {
    }
}

impl Magma<i64> for MinMonoid {
    open spec fn op_spec(lhs: i64, rhs: i64) -> i64 {
        if lhs <= rhs {
            lhs
        } else {
            rhs
        }
    }

    fn op(lhs: &i64, rhs: &i64) -> (res: i64) {
        (*lhs).min(*rhs)
    }
}

impl Semigroup<i64> for MinMonoid {
    proof fn associative(a: i64, b: i64, c: i64) {
    }
}

impl Monoid<i64> for MinMonoid {
    open spec fn id_spec() -> i64 {
        i64::MAX
    }

    fn id() -> (res: i64) {
        max_value_i64()
    }

    proof fn identity(a: i64) {
    }
}

impl Idempotence<i64> for MinMonoid {
    proof fn idempotent(a: i64) {
    }
}

impl Commutativity<i64> for MinMonoid {
    proof fn commutative(a: i64, b: i64) {
    }
}

impl Magma<i128> for MinMonoid {
    open spec fn op_spec(lhs: i128, rhs: i128) -> i128 {
        if lhs <= rhs {
            lhs
        } else {
            rhs
        }
    }

    fn op(lhs: &i128, rhs: &i128) -> (res: i128) {
        (*lhs).min(*rhs)
    }
}

impl Semigroup<i128> for MinMonoid {
    proof fn associative(a: i128, b: i128, c: i128) {
    }
}

impl Monoid<i128> for MinMonoid {
    open spec fn id_spec() -> i128 {
        i128::MAX
    }

    fn id() -> (res: i128) {
        max_value_i128()
    }

    proof fn identity(a: i128) {
    }
}

impl Idempotence<i128> for MinMonoid {
    proof fn idempotent(a: i128) {
    }
}

impl Commutativity<i128> for MinMonoid {
    proof fn commutative(a: i128, b: i128) {
    }
}

impl Magma<isize> for MinMonoid {
    open spec fn op_spec(lhs: isize, rhs: isize) -> isize {
        if lhs <= rhs {
            lhs
        } else {
            rhs
        }
    }

    fn op(lhs: &isize, rhs: &isize) -> (res: isize) {
        (*lhs).min(*rhs)
    }
}

impl Semigroup<isize> for MinMonoid {
    proof fn associative(a: isize, b: isize, c: isize) {
    }
}

impl Monoid<isize> for MinMonoid {
    open spec fn id_spec() -> isize {
        isize::MAX
    }

    fn id() -> (res: isize) {
        max_value_isize()
    }

    proof fn identity(a: isize) {
    }
}

impl Idempotence<isize> for MinMonoid {
    proof fn idempotent(a: isize) {
    }
}

impl Commutativity<isize> for MinMonoid {
    proof fn commutative(a: isize, b: isize) {
    }
}

impl Magma<u8> for MinMonoid {
    open spec fn op_spec(lhs: u8, rhs: u8) -> u8 {
        if lhs <= rhs {
            lhs
        } else {
            rhs
        }
    }

    fn op(lhs: &u8, rhs: &u8) -> (res: u8) {
        (*lhs).min(*rhs)
    }
}

impl Semigroup<u8> for MinMonoid {
    proof fn associative(a: u8, b: u8, c: u8) {
    }
}

impl Monoid<u8> for MinMonoid {
    open spec fn id_spec() -> u8 {
        u8::MAX
    }

    fn id() -> (res: u8) {
        max_value_u8()
    }

    proof fn identity(a: u8) {
    }
}

impl Idempotence<u8> for MinMonoid {
    proof fn idempotent(a: u8) {
    }
}

impl Commutativity<u8> for MinMonoid {
    proof fn commutative(a: u8, b: u8) {
    }
}

impl Magma<u16> for MinMonoid {
    open spec fn op_spec(lhs: u16, rhs: u16) -> u16 {
        if lhs <= rhs {
            lhs
        } else {
            rhs
        }
    }

    fn op(lhs: &u16, rhs: &u16) -> (res: u16) {
        (*lhs).min(*rhs)
    }
}

impl Semigroup<u16> for MinMonoid {
    proof fn associative(a: u16, b: u16, c: u16) {
    }
}

impl Monoid<u16> for MinMonoid {
    open spec fn id_spec() -> u16 {
        u16::MAX
    }

    fn id() -> (res: u16) {
        max_value_u16()
    }

    proof fn identity(a: u16) {
    }
}

impl Idempotence<u16> for MinMonoid {
    proof fn idempotent(a: u16) {
    }
}

impl Commutativity<u16> for MinMonoid {
    proof fn commutative(a: u16, b: u16) {
    }
}

impl Magma<u32> for MinMonoid {
    open spec fn op_spec(lhs: u32, rhs: u32) -> u32 {
        if lhs <= rhs {
            lhs
        } else {
            rhs
        }
    }

    fn op(lhs: &u32, rhs: &u32) -> (res: u32) {
        (*lhs).min(*rhs)
    }
}

impl Semigroup<u32> for MinMonoid {
    proof fn associative(a: u32, b: u32, c: u32) {
    }
}

impl Monoid<u32> for MinMonoid {
    open spec fn id_spec() -> u32 {
        u32::MAX
    }

    fn id() -> (res: u32) {
        max_value_u32()
    }

    proof fn identity(a: u32) {
    }
}

impl Idempotence<u32> for MinMonoid {
    proof fn idempotent(a: u32) {
    }
}

impl Commutativity<u32> for MinMonoid {
    proof fn commutative(a: u32, b: u32) {
    }
}

impl Magma<u64> for MinMonoid {
    open spec fn op_spec(lhs: u64, rhs: u64) -> u64 {
        if lhs <= rhs {
            lhs
        } else {
            rhs
        }
    }

    fn op(lhs: &u64, rhs: &u64) -> (res: u64) {
        (*lhs).min(*rhs)
    }
}

impl Semigroup<u64> for MinMonoid {
    proof fn associative(a: u64, b: u64, c: u64) {
    }
}

impl Monoid<u64> for MinMonoid {
    open spec fn id_spec() -> u64 {
        u64::MAX
    }

    fn id() -> (res: u64) {
        max_value_u64()
    }

    proof fn identity(a: u64) {
    }
}

impl Idempotence<u64> for MinMonoid {
    proof fn idempotent(a: u64) {
    }
}

impl Commutativity<u64> for MinMonoid {
    proof fn commutative(a: u64, b: u64) {
    }
}

impl Magma<u128> for MinMonoid {
    open spec fn op_spec(lhs: u128, rhs: u128) -> u128 {
        if lhs <= rhs {
            lhs
        } else {
            rhs
        }
    }

    fn op(lhs: &u128, rhs: &u128) -> (res: u128) {
        (*lhs).min(*rhs)
    }
}

impl Semigroup<u128> for MinMonoid {
    proof fn associative(a: u128, b: u128, c: u128) {
    }
}

impl Monoid<u128> for MinMonoid {
    open spec fn id_spec() -> u128 {
        u128::MAX
    }

    fn id() -> (res: u128) {
        max_value_u128()
    }

    proof fn identity(a: u128) {
    }
}

impl Idempotence<u128> for MinMonoid {
    proof fn idempotent(a: u128) {
    }
}

impl Commutativity<u128> for MinMonoid {
    proof fn commutative(a: u128, b: u128) {
    }
}

impl Magma<usize> for MinMonoid {
    open spec fn op_spec(lhs: usize, rhs: usize) -> usize {
        if lhs <= rhs {
            lhs
        } else {
            rhs
        }
    }

    fn op(lhs: &usize, rhs: &usize) -> (res: usize) {
        (*lhs).min(*rhs)
    }
}

impl Semigroup<usize> for MinMonoid {
    proof fn associative(a: usize, b: usize, c: usize) {
    }
}

impl Monoid<usize> for MinMonoid {
    open spec fn id_spec() -> usize {
        usize::MAX
    }

    fn id() -> (res: usize) {
        max_value_usize()
    }

    proof fn identity(a: usize) {
    }
}

impl Idempotence<usize> for MinMonoid {
    proof fn idempotent(a: usize) {
    }
}

impl Commutativity<usize> for MinMonoid {
    proof fn commutative(a: usize, b: usize) {
    }
}

} // verus!
