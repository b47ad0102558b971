//! [`AdditiveStruct`]: addition, with 0 as the identity.
//!
//! The sum wraps around at the bounds of the type. That makes the operator
//! total and associative on every pair of numbers, and on the signed types a
//! group: the inverse of a number is its two's-complement negation.
use vstd::prelude::*;
use crate::algebra::{Commutativity, Group, Magma, Monoid, Semigroup};
use crate::algebra::typical::AdditiveStruct;
use crate::algebra::typical::bounds::{
    zero_i8, zero_i16, zero_i32, zero_i64, zero_i128, zero_isize, zero_u8, zero_u16, zero_u32,
    zero_u64, zero_u128, zero_usize,
};

verus! {

impl Magma<i8> for AdditiveStruct {
    open spec fn op_spec(lhs: i8, rhs: i8) -> i8 {
        lhs.wrapping_add(rhs)
    }

    fn op(lhs: &i8, rhs: &i8) -> (res: i8) {
        lhs.wrapping_add(*rhs)
    }
}

impl Semigroup<i8> for AdditiveStruct {
    proof fn associative(a: i8, b: i8, c: i8) {
    }
}

impl Monoid<i8> for AdditiveStruct {
    open spec fn id_spec() -> i8 {
        0
    }

    fn id() -> (res: i8) {
        zero_i8()
    }

    proof fn identity(a: i8) {
    }
}

impl Group<i8> for AdditiveStruct {
    open spec fn inv_spec(elm: i8) -> i8 {
        0i8.wrapping_sub(elm)
    }

    fn inv(elm: &i8) -> (res: i8) {
        0i8.wrapping_sub(*elm)
    }

    proof fn inverse(a: i8) {
    }
}

impl Commutativity<i8> for AdditiveStruct {
    proof fn commutative(a: i8, b: i8) {
    }
}

impl Magma<i16> for AdditiveStruct {
    open spec fn op_spec(lhs: i16, rhs: i16) -> i16 {
        lhs.wrapping_add(rhs)
    }

    fn op(lhs: &i16, rhs: &i16) -> (res: i16) {
        lhs.wrapping_add(*rhs)
    }
}

impl Semigroup<i16> for AdditiveStruct {
    proof fn associative(a: i16, b: i16, c: i16) {
    }
}

impl Monoid<i16> for AdditiveStruct {
    open spec fn id_spec() -> i16 {
        0
    }

    fn id() -> (res: i16) {
        zero_i16()
    }

    proof fn identity(a: i16) {
    }
}

impl Group<i16> for AdditiveStruct {
    open spec fn inv_spec(elm: i16) -> i16 {
        0i16.wrapping_sub(elm)
    }

    fn inv(elm: &i16) -> (res: i16) {
        0i16.wrapping_sub(*elm)
    }

    proof fn inverse(a: i16) {
    }
}

impl Commutativity<i16> for AdditiveStruct {
    proof fn commutative(a: i16, b: i16) {
    }
}

impl Magma<i32> for AdditiveStruct {
    open spec fn op_spec(lhs: i32, rhs: i32) -> i32 {
        lhs.wrapping_add(rhs)
    }

    fn op(lhs: &i32, rhs: &i32) -> (res: i32) {
        lhs.wrapping_add(*rhs)
    }
}

impl Semigroup<i32> for AdditiveStruct {
    proof fn associative(a: i32, b: i32, c: i32) {
    }
}

impl Monoid<i32> for AdditiveStruct {
    open spec fn id_spec() -> i32 {
        0
    }

    fn id() -> (res: i32) {
        zero_i32()
    }

    proof fn identity(a: i32) {
    }
}

impl Group<i32> for AdditiveStruct {
    open spec fn inv_spec(elm: i32) -> i32 {
        0i32.wrapping_sub(elm)
    }

    fn inv(elm: &i32) -> (res: i32) {
        0i32.wrapping_sub(*elm)
    }

    proof fn inverse(a: i32) {
    }
}

impl Commutativity<i32> for AdditiveStruct {
    proof fn commutative(a: i32, b: i32) {
    }
}

impl Magma<i64> for AdditiveStruct {
    open spec fn op_spec(lhs: i64, rhs: i64) -> i64 {
        lhs.wrapping_add(rhs)
    }

    fn op(lhs: &i64, rhs: &i64) -> (res: i64) {
        lhs.wrapping_add(*rhs)
    }
}

impl Semigroup<i64> for AdditiveStruct {
    proof fn associative(a: i64, b: i64, c: i64) {
    }
}

impl Monoid<i64> for AdditiveStruct {
    open spec fn id_spec() -> i64 {
        0
    }

    fn id() -> (res: i64) {
        zero_i64()
    }

    proof fn identity(a: i64) {
    }
}

impl Group<i64> for AdditiveStruct {
    open spec fn inv_spec(elm: i64) -> i64 {
        0i64.wrapping_sub(elm)
    }

    fn inv(elm: &i64) -> (res: i64) {
        0i64.wrapping_sub(*elm)
    }

    proof fn inverse(a: i64) {
    }
}

impl Commutativity<i64> for AdditiveStruct {
    proof fn commutative(a: i64, b: i64) {
    }
}

impl Magma<i128> for AdditiveStruct {
    open spec fn op_spec(lhs: i128, rhs: i128) -> i128 {
        lhs.wrapping_add(rhs)
    }

    fn op(lhs: &i128, rhs: &i128) -> (res: i128) {
        lhs.wrapping_add(*rhs)
    }
}

impl Semigroup<i128> for AdditiveStruct {
    proof fn associative(a: i128, b: i128, c: i128) {
    }
}

impl Monoid<i128> for AdditiveStruct {
    open spec fn id_spec() -> i128 {
        0
    }

    fn id() -> (res: i128) {
        zero_i128()
    }

    proof fn identity(a: i128) {
    }
}

impl Group<i128> for AdditiveStruct {
    open spec fn inv_spec(elm: i128) -> i128 {
        0i128.wrapping_sub(elm)
    }

    fn inv(elm: &i128) -> (res: i128) {
        0i128.wrapping_sub(*elm)
    }

    proof fn inverse(a: i128) {
    }
}

impl Commutativity<i128> for AdditiveStruct {
    proof fn commutative(a: i128, b: i128) {
    }
}

impl Magma<isize> for AdditiveStruct {
    open spec fn op_spec(lhs: isize, rhs: isize) -> isize {
        lhs.wrapping_add(rhs)
    }

    fn op(lhs: &isize, rhs: &isize) -> (res: isize) {
        lhs.wrapping_add(*rhs)
    }
}

impl Semigroup<isize> for AdditiveStruct {
    proof fn associative(a: isize, b: isize, c: isize) {
    }
}

impl Monoid<isize> for AdditiveStruct {
    open spec fn id_spec() -> isize {
        0
    }

    fn id() -> (res: isize) {
        zero_isize()
    }

    proof fn identity(a: isize) {
    }
}

impl Group<isize> for AdditiveStruct {
    open spec fn inv_spec(elm: isize) -> isize {
        0isize.wrapping_sub(elm)
    }

    fn inv(elm: &isize) -> (res: isize) {
        0isize.wrapping_sub(*elm)
    }

    proof fn inverse(a: isize) {
    }
}

impl Commutativity<isize> for AdditiveStruct {
    proof fn commutative(a: isize, b: isize) {
    }
}

impl Magma<u8> for AdditiveStruct {
    open spec fn op_spec(lhs: u8, rhs: u8) -> u8 {
        lhs.wrapping_add(rhs)
    }

    fn op(lhs: &u8, rhs: &u8) -> (res: u8) {
        lhs.wrapping_add(*rhs)
    }
}

impl Semigroup<u8> for AdditiveStruct {
    proof fn associative(a: u8, b: u8, c: u8) {
    }
}

impl Monoid<u8> for AdditiveStruct {
    open spec fn id_spec() -> u8 {
        0
    }

    fn id() -> (res: u8) {
        zero_u8()
    }

    proof fn identity(a: u8) {
    }
}

impl Commutativity<u8> for AdditiveStruct {
    proof fn commutative(a: u8, b: u8) {
    }
}

impl Magma<u16> for AdditiveStruct {
    open spec fn op_spec(lhs: u16, rhs: u16) -> u16 {
        lhs.wrapping_add(rhs)
    }

    fn op(lhs: &u16, rhs: &u16) -> (res: u16) {
        lhs.wrapping_add(*rhs)
    }
}

impl Semigroup<u16> for AdditiveStruct {
    proof fn associative(a: u16, b: u16, c: u16) {
    }
}

impl Monoid<u16> for AdditiveStruct {
    open spec fn id_spec() -> u16 {
        0
    }

    fn id() -> (res: u16) {
        zero_u16()
    }

    proof fn identity(a: u16) {
    }
}

impl Commutativity<u16> for AdditiveStruct {
    proof fn commutative(a: u16, b: u16) {
    }
}

impl Magma<u32> for AdditiveStruct {
    open spec fn op_spec(lhs: u32, rhs: u32) -> u32 {
        lhs.wrapping_add(rhs)
    }

    fn op(lhs: &u32, rhs: &u32) -> (res: u32) {
        lhs.wrapping_add(*rhs)
    }
}

impl Semigroup<u32> for AdditiveStruct {
    proof fn associative(a: u32, b: u32, c: u32) {
    }
}

impl Monoid<u32> for AdditiveStruct {
    open spec fn id_spec() -> u32 {
        0
    }

    fn id() -> (res: u32) {
        zero_u32()
    }

    proof fn identity(a: u32) {
    }
}

impl Commutativity<u32> for AdditiveStruct {
    proof fn commutative(a: u32, b: u32) {
    }
}

impl Magma<u64> for AdditiveStruct {
    open spec fn op_spec(lhs: u64, rhs: u64) -> u64 {
        lhs.wrapping_add(rhs)
    }

    fn op(lhs: &u64, rhs: &u64) -> (res: u64) {
        lhs.wrapping_add(*rhs)
    }
}

impl Semigroup<u64> for AdditiveStruct {
    proof fn associative(a: u64, b: u64, c: u64) {
    }
}

impl Monoid<u64> for AdditiveStruct {
    open spec fn id_spec() -> u64 {
        0
    }

    fn id() -> (res: u64) {
        zero_u64()
    }

    proof fn identity(a: u64) {
    }
}

impl Commutativity<u64> for AdditiveStruct {
    proof fn commutative(a: u64, b: u64) {
    }
}

impl Magma<u128> for AdditiveStruct {
    open spec fn op_spec(lhs: u128, rhs: u128) -> u128 {
        lhs.wrapping_add(rhs)
    }

    fn op(lhs: &u128, rhs: &u128) -> (res: u128) {
        lhs.wrapping_add(*rhs)
    }
}

impl Semigroup<u128> for AdditiveStruct {
    proof fn associative(a: u128, b: u128, c: u128) {
    }
}

impl Monoid<u128> for AdditiveStruct {
    open spec fn id_spec() -> u128 {
        0
    }

    fn id() -> (res: u128) {
        zero_u128()
    }

    proof fn identity(a: u128) {
    }
}

impl Commutativity<u128> for AdditiveStruct {
    proof fn commutative(a: u128, b: u128) {
    }
}

impl Magma<usize> for AdditiveStruct {
    open spec fn op_spec(lhs: usize, rhs: usize) -> usize {
        lhs.wrapping_add(rhs)
    }

    fn op(lhs: &usize, rhs: &usize) -> (res: usize) {
        lhs.wrapping_add(*rhs)
    }
}

impl Semigroup<usize> for AdditiveStruct {
    proof fn associative(a: usize, b: usize, c: usize) {
    }
}

impl Monoid<usize> for AdditiveStruct {
    open spec fn id_spec() -> usize {
        0
    }

    fn id() -> (res: usize) {
        zero_usize()
    }

    proof fn identity(a: usize) {
    }
}

impl Commutativity<usize> for AdditiveStruct {
    proof fn commutative(a: usize, b: usize) {
    }
}

} // verus!
