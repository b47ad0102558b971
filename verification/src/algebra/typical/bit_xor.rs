//! [`BitXorGroup`]: bitwise exclusive or, with 0 as the identity. Every
//! number is its own inverse.
use vstd::prelude::*;
use crate::algebra::{Commutativity, Group, Magma, Monoid, Semigroup};
use crate::algebra::typical::BitXorGroup;
use crate::algebra::typical::bounds::{
    zero_i8, zero_i16, zero_i32, zero_i64, zero_i128, zero_isize, zero_u8, zero_u16, zero_u32,
    zero_u64, zero_u128, zero_usize,
};

verus! {

/// The laws of `^` on `i8`.
proof fn lemma_xor_i8(a: i8, b: i8, c: i8)
    by (bit_vector)
    ensures
        (a ^ b) ^ c == a ^ (b ^ c),
        0i8 ^ a == a,
        a ^ 0i8 == a,
        a ^ a == 0i8,
        a ^ b == b ^ a,
{
}

impl Magma<i8> for BitXorGroup {
    open spec fn op_spec(lhs: i8, rhs: i8) -> i8 {
        lhs ^ rhs
    }

    fn op(lhs: &i8, rhs: &i8) -> (res: i8) {
        *lhs ^ *rhs
    }
}

impl Semigroup<i8> for BitXorGroup {
    proof fn associative(a: i8, b: i8, c: i8) {
        lemma_xor_i8(a, b, c);
    }
}

impl Monoid<i8> for BitXorGroup {
    open spec fn id_spec() -> i8 {
        0
    }

    fn id() -> (res: i8) {
        zero_i8()
    }

    proof fn identity(a: i8) {
        lemma_xor_i8(a, a, a);
    }
}

impl Group<i8> for BitXorGroup {
    open spec fn inv_spec(elm: i8) -> i8 {
        elm
    }

    fn inv(elm: &i8) -> (res: i8) {
        *elm
    }

    proof fn inverse(a: i8) {
        lemma_xor_i8(a, a, a);
    }
}

impl Commutativity<i8> for BitXorGroup {
    proof fn commutative(a: i8, b: i8) {
        lemma_xor_i8(a, b, a);
    }
}

/// The laws of `^` on `i16`.
proof fn lemma_xor_i16(a: i16, b: i16, c: i16)
    by (bit_vector)
    ensures
        (a ^ b) ^ c == a ^ (b ^ c),
        0i16 ^ a == a,
        a ^ 0i16 == a,
        a ^ a == 0i16,
        a ^ b == b ^ a,
{
}

impl Magma<i16> for BitXorGroup {
    open spec fn op_spec(lhs: i16, rhs: i16) -> i16 {
        lhs ^ rhs
    }

    fn op(lhs: &i16, rhs: &i16) -> (res: i16) {
        *lhs ^ *rhs
    }
}

impl Semigroup<i16> for BitXorGroup {
    proof fn associative(a: i16, b: i16, c: i16) {
        lemma_xor_i16(a, b, c);
    }
}

impl Monoid<i16> for BitXorGroup {
    open spec fn id_spec() -> i16 {
        0
    }

    fn id() -> (res: i16) {
        zero_i16()
    }

    proof fn identity(a: i16) {
        lemma_xor_i16(a, a, a);
    }
}

impl Group<i16> for BitXorGroup {
    open spec fn inv_spec(elm: i16) -> i16 {
        elm
    }

    fn inv(elm: &i16) -> (res: i16) {
        *elm
    }

    proof fn inverse(a: i16) {
        lemma_xor_i16(a, a, a);
    }
}

impl Commutativity<i16> for BitXorGroup {
    proof fn commutative(a: i16, b: i16) {
        lemma_xor_i16(a, b, a);
    }
}

/// The laws of `^` on `i32`.
proof fn lemma_xor_i32(a: i32, b: i32, c: i32)
    by (bit_vector)
    ensures
        (a ^ b) ^ c == a ^ (b ^ c),
        0i32 ^ a == a,
        a ^ 0i32 == a,
        a ^ a == 0i32,
        a ^ b == b ^ a,
{
}

impl Magma<i32> for BitXorGroup {
    open spec fn op_spec(lhs: i32, rhs: i32) -> i32 {
        lhs ^ rhs
    }

    fn op(lhs: &i32, rhs: &i32) -> (res: i32) {
        *lhs ^ *rhs
    }
}

impl Semigroup<i32> for BitXorGroup {
    proof fn associative(a: i32, b: i32, c: i32) {
        lemma_xor_i32(a, b, c);
    }
}

impl Monoid<i32> for BitXorGroup {
    open spec fn id_spec() -> i32 {
        0
    }

    fn id() -> (res: i32) {
        zero_i32()
    }

    proof fn identity(a: i32) {
        lemma_xor_i32(a, a, a);
    }
}

impl Group<i32> for BitXorGroup {
    open spec fn inv_spec(elm: i32) -> i32 {
        elm
    }

    fn inv(elm: &i32) -> (res: i32) {
        *elm
    }

    proof fn inverse(a: i32) {
        lemma_xor_i32(a, a, a);
    }
}

impl Commutativity<i32> for BitXorGroup {
    proof fn commutative(a: i32, b: i32) {
        lemma_xor_i32(a, b, a);
    }
}

/// The laws of `^` on `i64`.
proof fn lemma_xor_i64(a: i64, b: i64, c: i64)
    by (bit_vector)
    ensures
        (a ^ b) ^ c == a ^ (b ^ c),
        0i64 ^ a == a,
        a ^ 0i64 == a,
        a ^ a == 0i64,
        a ^ b == b ^ a,
{
}

impl Magma<i64> for BitXorGroup {
    open spec fn op_spec(lhs: i64, rhs: i64) -> i64 {
        lhs ^ rhs
    }

    fn op(lhs: &i64, rhs: &i64) -> (res: i64) {
        *lhs ^ *rhs
    }
}

impl Semigroup<i64> for BitXorGroup {
    proof fn associative(a: i64, b: i64, c: i64) {
        lemma_xor_i64(a, b, c);
    }
}

impl Monoid<i64> for BitXorGroup {
    open spec fn id_spec() -> i64 {
        0
    }

    fn id() -> (res: i64) {
        zero_i64()
    }

    proof fn identity(a: i64) {
        lemma_xor_i64(a, a, a);
    }
}

impl Group<i64> for BitXorGroup {
    open spec fn inv_spec(elm: i64) -> i64 {
        elm
    }

    fn inv(elm: &i64) -> (res: i64) {
        *elm
    }

    proof fn inverse(a: i64) {
        lemma_xor_i64(a, a, a);
    }
}

impl Commutativity<i64> for BitXorGroup {
    proof fn commutative(a: i64, b: i64) {
        lemma_xor_i64(a, b, a);
    }
}

/// The laws of `^` on `i128`.
proof fn lemma_xor_i128(a: i128, b: i128, c: i128)
    by (bit_vector)
    ensures
        (a ^ b) ^ c == a ^ (b ^ c),
        0i128 ^ a == a,
        a ^ 0i128 == a,
        a ^ a == 0i128,
        a ^ b == b ^ a,
{
}

impl Magma<i128> for BitXorGroup {
    open spec fn op_spec(lhs: i128, rhs: i128) -> i128 {
        lhs ^ rhs
    }

    fn op(lhs: &i128, rhs: &i128) -> (res: i128) {
        *lhs ^ *rhs
    }
}

impl Semigroup<i128> for BitXorGroup {
    proof fn associative(a: i128, b: i128, c: i128) {
        lemma_xor_i128(a, b, c);
    }
}

impl Monoid<i128> for BitXorGroup {
    open spec fn id_spec() -> i128 {
        0
    }

    fn id() -> (res: i128) {
        zero_i128()
    }

    proof fn identity(a: i128) {
        lemma_xor_i128(a, a, a);
    }
}

impl Group<i128> for BitXorGroup {
    open spec fn inv_spec(elm: i128) -> i128 {
        elm
    }

    fn inv(elm: &i128) -> (res: i128) {
        *elm
    }

    proof fn inverse(a: i128) {
        lemma_xor_i128(a, a, a);
    }
}

impl Commutativity<i128> for BitXorGroup {
    proof fn commutative(a: i128, b: i128) {
        lemma_xor_i128(a, b, a);
    }
}

/// The laws of `^` on `isize`.
proof fn lemma_xor_isize(a: isize, b: isize, c: isize)
    by (bit_vector)
    ensures
        (a ^ b) ^ c == a ^ (b ^ c),
        0isize ^ a == a,
        a ^ 0isize == a,
        a ^ a == 0isize,
        a ^ b == b ^ a,
{
}

impl Magma<isize> for BitXorGroup {
    open spec fn op_spec(lhs: isize, rhs: isize) -> isize {
        lhs ^ rhs
    }

    fn op(lhs: &isize, rhs: &isize) -> (res: isize) {
        *lhs ^ *rhs
    }
}

impl Semigroup<isize> for BitXorGroup {
    proof fn associative(a: isize, b: isize, c: isize) {
        lemma_xor_isize(a, b, c);
    }
}

impl Monoid<isize> for BitXorGroup {
    open spec fn id_spec() -> isize {
        0
    }

    fn id() -> (res: isize) {
        zero_isize()
    }

    proof fn identity(a: isize) {
        lemma_xor_isize(a, a, a);
    }
}

impl Group<isize> for BitXorGroup {
    open spec fn inv_spec(elm: isize) -> isize {
        elm
    }

    fn inv(elm: &isize) -> (res: isize) {
        *elm
    }

    proof fn inverse(a: isize) {
        lemma_xor_isize(a, a, a);
    }
}

impl Commutativity<isize> for BitXorGroup {
    proof fn commutative(a: isize, b: isize) {
        lemma_xor_isize(a, b, a);
    }
}

/// The laws of `^` on `u8`.
proof fn lemma_xor_u8(a: u8, b: u8, c: u8)
    by (bit_vector)
    ensures
        (a ^ b) ^ c == a ^ (b ^ c),
        0u8 ^ a == a,
        a ^ 0u8 == a,
        a ^ a == 0u8,
        a ^ b == b ^ a,
{
}

impl Magma<u8> for BitXorGroup {
    open spec fn op_spec(lhs: u8, rhs: u8) -> u8 {
        lhs ^ rhs
    }

    fn op(lhs: &u8, rhs: &u8) -> (res: u8) {
        *lhs ^ *rhs
    }
}

impl Semigroup<u8> for BitXorGroup {
    proof fn associative(a: u8, b: u8, c: u8) {
        lemma_xor_u8(a, b, c);
    }
}

impl Monoid<u8> for BitXorGroup {
    open spec fn id_spec() -> u8 {
        0
    }

    fn id() -> (res: u8) {
        zero_u8()
    }

    proof fn identity(a: u8) {
        lemma_xor_u8(a, a, a);
    }
}

impl Group<u8> for BitXorGroup {
    open spec fn inv_spec(elm: u8) -> u8 {
        elm
    }

    fn inv(elm: &u8) -> (res: u8) {
        *elm
    }

    proof fn inverse(a: u8) {
        lemma_xor_u8(a, a, a);
    }
}

impl Commutativity<u8> for BitXorGroup {
    proof fn commutative(a: u8, b: u8) {
        lemma_xor_u8(a, b, a);
    }
}

/// The laws of `^` on `u16`.
proof fn lemma_xor_u16(a: u16, b: u16, c: u16)
    by (bit_vector)
    ensures
        (a ^ b) ^ c == a ^ (b ^ c),
        0u16 ^ a == a,
        a ^ 0u16 == a,
        a ^ a == 0u16,
        a ^ b == b ^ a,
{
}

impl Magma<u16> for BitXorGroup {
    open spec fn op_spec(lhs: u16, rhs: u16) -> u16 {
        lhs ^ rhs
    }

    fn op(lhs: &u16, rhs: &u16) -> (res: u16) {
        *lhs ^ *rhs
    }
}

impl Semigroup<u16> for BitXorGroup {
    proof fn associative(a: u16, b: u16, c: u16) {
        lemma_xor_u16(a, b, c);
    }
}

impl Monoid<u16> for BitXorGroup {
    open spec fn id_spec() -> u16 {
        0
    }

    fn id() -> (res: u16) {
        zero_u16()
    }

    proof fn identity(a: u16) {
        lemma_xor_u16(a, a, a);
    }
}

impl Group<u16> for BitXorGroup {
    open spec fn inv_spec(elm: u16) -> u16 {
        elm
    }

    fn inv(elm: &u16) -> (res: u16) {
        *elm
    }

    proof fn inverse(a: u16) {
        lemma_xor_u16(a, a, a);
    }
}

impl Commutativity<u16> for BitXorGroup {
    proof fn commutative(a: u16, b: u16) {
        lemma_xor_u16(a, b, a);
    }
}

/// The laws of `^` on `u32`.
proof fn lemma_xor_u32(a: u32, b: u32, c: u32)
    by (bit_vector)
    ensures
        (a ^ b) ^ c == a ^ (b ^ c),
        0u32 ^ a == a,
        a ^ 0u32 == a,
        a ^ a == 0u32,
        a ^ b == b ^ a,
{
}

impl Magma<u32> for BitXorGroup {
    open spec fn op_spec(lhs: u32, rhs: u32) -> u32 {
        lhs ^ rhs
    }

    fn op(lhs: &u32, rhs: &u32) -> (res: u32) {
        *lhs ^ *rhs
    }
}

impl Semigroup<u32> for BitXorGroup {
    proof fn associative(a: u32, b: u32, c: u32) {
        lemma_xor_u32(a, b, c);
    }
}

impl Monoid<u32> for BitXorGroup {
    open spec fn id_spec() -> u32 {
        0
    }

    fn id() -> (res: u32) {
        zero_u32()
    }

    proof fn identity(a: u32) {
        lemma_xor_u32(a, a, a);
    }
}

impl Group<u32> for BitXorGroup {
    open spec fn inv_spec(elm: u32) -> u32 {
        elm
    }

    fn inv(elm: &u32) -> (res: u32) {
        *elm
    }

    proof fn inverse(a: u32) {
        lemma_xor_u32(a, a, a);
    }
}

impl Commutativity<u32> for BitXorGroup {
    proof fn commutative(a: u32, b: u32) {
        lemma_xor_u32(a, b, a);
    }
}

/// The laws of `^` on `u64`.
proof fn lemma_xor_u64(a: u64, b: u64, c: u64)
    by (bit_vector)
    ensures
        (a ^ b) ^ c == a ^ (b ^ c),
        0u64 ^ a == a,
        a ^ 0u64 == a,
        a ^ a == 0u64,
        a ^ b == b ^ a,
{
}

impl Magma<u64> for BitXorGroup {
    open spec fn op_spec(lhs: u64, rhs: u64) -> u64 {
        lhs ^ rhs
    }

    fn op(lhs: &u64, rhs: &u64) -> (res: u64) {
        *lhs ^ *rhs
    }
}

impl Semigroup<u64> for BitXorGroup {
    proof fn associative(a: u64, b: u64, c: u64) {
        lemma_xor_u64(a, b, c);
    }
}

impl Monoid<u64> for BitXorGroup {
    open spec fn id_spec() -> u64 {
        0
    }

    fn id() -> (res: u64) {
        zero_u64()
    }

    proof fn identity(a: u64) {
        lemma_xor_u64(a, a, a);
    }
}

impl Group<u64> for BitXorGroup {
    open spec fn inv_spec(elm: u64) -> u64 {
        elm
    }

    fn inv(elm: &u64) -> (res: u64) {
        *elm
    }

    proof fn inverse(a: u64) {
        lemma_xor_u64(a, a, a);
    }
}

impl Commutativity<u64> for BitXorGroup {
    proof fn commutative(a: u64, b: u64) {
        lemma_xor_u64(a, b, a);
    }
}

/// The laws of `^` on `u128`.
proof fn lemma_xor_u128(a: u128, b: u128, c: u128)
    by (bit_vector)
    ensures
        (a ^ b) ^ c == a ^ (b ^ c),
        0u128 ^ a == a,
        a ^ 0u128 == a,
        a ^ a == 0u128,
        a ^ b == b ^ a,
{
}

impl Magma<u128> for BitXorGroup {
    open spec fn op_spec(lhs: u128, rhs: u128) -> u128 {
        lhs ^ rhs
    }

    fn op(lhs: &u128, rhs: &u128) -> (res: u128) {
        *lhs ^ *rhs
    }
}

impl Semigroup<u128> for BitXorGroup {
    proof fn associative(a: u128, b: u128, c: u128) {
        lemma_xor_u128(a, b, c);
    }
}

impl Monoid<u128> for BitXorGroup {
    open spec fn id_spec() -> u128 {
        0
    }

    fn id() -> (res: u128) {
        zero_u128()
    }

    proof fn identity(a: u128) {
        lemma_xor_u128(a, a, a);
    }
}

impl Group<u128> for BitXorGroup {
    open spec fn inv_spec(elm: u128) -> u128 {
        elm
    }

    fn inv(elm: &u128) -> (res: u128) {
        *elm
    }

    proof fn inverse(a: u128) {
        lemma_xor_u128(a, a, a);
    }
}

impl Commutativity<u128> for BitXorGroup {
    proof fn commutative(a: u128, b: u128) {
        lemma_xor_u128(a, b, a);
    }
}

/// The laws of `^` on `usize`.
proof fn lemma_xor_usize(a: usize, b: usize, c: usize)
    by (bit_vector)
    ensures
        (a ^ b) ^ c == a ^ (b ^ c),
        0usize ^ a == a,
        a ^ 0usize == a,
        a ^ a == 0usize,
        a ^ b == b ^ a,
{
}

impl Magma<usize> for BitXorGroup {
    open spec fn op_spec(lhs: usize, rhs: usize) -> usize {
        lhs ^ rhs
    }

    fn op(lhs: &usize, rhs: &usize) -> (res: usize) {
        *lhs ^ *rhs
    }
}

impl Semigroup<usize> for BitXorGroup {
    proof fn associative(a: usize, b: usize, c: usize) {
        lemma_xor_usize(a, b, c);
    }
}

impl Monoid<usize> for BitXorGroup {
    open spec fn id_spec() -> usize {
        0
    }

    fn id() -> (res: usize) {
        zero_usize()
    }

    proof fn identity(a: usize) {
        lemma_xor_usize(a, a, a);
    }
}

impl Group<usize> for BitXorGroup {
    open spec fn inv_spec(elm: usize) -> usize {
        elm
    }

    fn inv(elm: &usize) -> (res: usize) {
        *elm
    }

    proof fn inverse(a: usize) {
        lemma_xor_usize(a, a, a);
    }
}

impl Commutativity<usize> for BitXorGroup {
    proof fn commutative(a: usize, b: usize) {
        lemma_xor_usize(a, b, a);
    }
}

} // verus!
