//! The least and greatest value and the zero of each integer type, as
//! `num_traits` gives them.
use vstd::prelude::*;
use num_traits::{Bounded, Zero};

verus! {

/// Calls `<i8 as num_traits::Bounded>::min_value`, which returns
/// `i8::MIN`.
#[verifier::external_body]
pub(crate) fn min_value_i8() -> (res: i8)
    ensures
        res == i8::MIN,
{
    <i8 as Bounded>::min_value()
}

/// Calls `<i8 as num_traits::Bounded>::max_value`, which returns
/// `i8::MAX`.
#[verifier::external_body]
pub(crate) fn max_value_i8() -> (res: i8)
    ensures
        res == i8::MAX,
{
    <i8 as Bounded>::max_value()
}

/// Calls `<i8 as num_traits::Zero>::zero`, which returns 0.
#[verifier::external_body]
pub(crate) fn zero_i8() -> (res: i8)
    ensures
        res == 0,
{
    <i8 as Zero>::zero()
}

/// Calls `<i16 as num_traits::Bounded>::min_value`, which returns
/// `i16::MIN`.
#[verifier::external_body]
pub(crate) fn min_value_i16() -> (res: i16)
    ensures
        res == i16::MIN,
{
    <i16 as Bounded>::min_value()
}

/// Calls `<i16 as num_traits::Bounded>::max_value`, which returns
/// `i16::MAX`.
#[verifier::external_body]
pub(crate) fn max_value_i16() -> (res: i16)
    ensures
        res == i16::MAX,
{
    <i16 as Bounded>::max_value()
}

/// Calls `<i16 as num_traits::Zero>::zero`, which returns 0.
#[verifier::external_body]
pub(crate) fn zero_i16() -> (res: i16)
    ensures
        res == 0,
{
    <i16 as Zero>::zero()
}

/// Calls `<i32 as num_traits::Bounded>::min_value`, which returns
/// `i32::MIN`.
#[verifier::external_body]
pub(crate) fn min_value_i32() -> (res: i32)
    ensures
        res == i32::MIN,
{
    <i32 as Bounded>::min_value()
}

/// Calls `<i32 as num_traits::Bounded>::max_value`, which returns
/// `i32::MAX`.
#[verifier::external_body]
pub(crate) fn max_value_i32() -> (res: i32)
    ensures
        res == i32::MAX,
{
    <i32 as Bounded>::max_value()
}

/// Calls `<i32 as num_traits::Zero>::zero`, which returns 0.
#[verifier::external_body]
pub(crate) fn zero_i32() -> (res: i32)
    ensures
        res == 0,
{
    <i32 as Zero>::zero()
}

/// Calls `<i64 as num_traits::Bounded>::min_value`, which returns
/// `i64::MIN`.
#[verifier::external_body]
pub(crate) fn min_value_i64() -> (res: i64)
    ensures
        res == i64::MIN,
{
    <i64 as Bounded>::min_value()
}

/// Calls `<i64 as num_traits::Bounded>::max_value`, which returns
/// `i64::MAX`.
#[verifier::external_body]
pub(crate) fn max_value_i64() -> (res: i64)
    ensures
        res == i64::MAX,
{
    <i64 as Bounded>::max_value()
}

/// Calls `<i64 as num_traits::Zero>::zero`, which returns 0.
#[verifier::external_body]
pub(crate) fn zero_i64() -> (res: i64)
    ensures
        res == 0,
{
    <i64 as Zero>::zero()
}

/// Calls `<i128 as num_traits::Bounded>::min_value`, which returns
/// `i128::MIN`.
#[verifier::external_body]
pub(crate) fn min_value_i128() -> (res: i128)
    ensures
        res == i128::MIN,
{
    <i128 as Bounded>::min_value()
}

/// Calls `<i128 as num_traits::Bounded>::max_value`, which returns
/// `i128::MAX`.
#[verifier::external_body]
pub(crate) fn max_value_i128() -> (res: i128)
    ensures
        res == i128::MAX,
{
    <i128 as Bounded>::max_value()
}

/// Calls `<i128 as num_traits::Zero>::zero`, which returns 0.
#[verifier::external_body]
pub(crate) fn zero_i128() -> (res: i128)
    ensures
        res == 0,
{
    <i128 as Zero>::zero()
}

/// Calls `<isize as num_traits::Bounded>::min_value`, which returns
/// `isize::MIN`.
#[verifier::external_body]
pub(crate) fn min_value_isize() -> (res: isize)
    ensures
        res == isize::MIN,
{
    <isize as Bounded>::min_value()
}

/// Calls `<isize as num_traits::Bounded>::max_value`, which returns
/// `isize::MAX`.
#[verifier::external_body]
pub(crate) fn max_value_isize() -> (res: isize)
    ensures
        res == isize::MAX,
{
    <isize as Bounded>::max_value()
}

/// Calls `<isize as num_traits::Zero>::zero`, which returns 0.
#[verifier::external_body]
pub(crate) fn zero_isize() -> (res: isize)
    ensures
        res == 0,
{
    <isize as Zero>::zero()
}

/// Calls `<u8 as num_traits::Bounded>::min_value`, which returns
/// `u8::MIN`.
#[verifier::external_body]
pub(crate) fn min_value_u8() -> (res: u8)
    ensures
        res == u8::MIN,
{
    <u8 as Bounded>::min_value()
}

/// Calls `<u8 as num_traits::Bounded>::max_value`, which returns
/// `u8::MAX`.
#[verifier::external_body]
pub(crate) fn max_value_u8() -> (res: u8)
    ensures
        res == u8::MAX,
{
    <u8 as Bounded>::max_value()
}

/// Calls `<u8 as num_traits::Zero>::zero`, which returns 0.
#[verifier::external_body]
pub(crate) fn zero_u8() -> (res: u8)
    ensures
        res == 0,
{
    <u8 as Zero>::zero()
}

/// Calls `<u16 as num_traits::Bounded>::min_value`, which returns
/// `u16::MIN`.
#[verifier::external_body]
pub(crate) fn min_value_u16() -> (res: u16)
    ensures
        res == u16::MIN,
{
    <u16 as Bounded>::min_value()
}

/// Calls `<u16 as num_traits::Bounded>::max_value`, which returns
/// `u16::MAX`.
#[verifier::external_body]
pub(crate) fn max_value_u16() -> (res: u16)
    ensures
        res == u16::MAX,
{
    <u16 as Bounded>::max_value()
}

/// Calls `<u16 as num_traits::Zero>::zero`, which returns 0.
#[verifier::external_body]
pub(crate) fn zero_u16() -> (res: u16)
    ensures
        res == 0,
{
    <u16 as Zero>::zero()
}

/// Calls `<u32 as num_traits::Bounded>::min_value`, which returns
/// `u32::MIN`.
#[verifier::external_body]
pub(crate) fn min_value_u32() -> (res: u32)
    ensures
        res == u32::MIN,
{
    <u32 as Bounded>::min_value()
}

/// Calls `<u32 as num_traits::Bounded>::max_value`, which returns
/// `u32::MAX`.
#[verifier::external_body]
pub(crate) fn max_value_u32() -> (res: u32)
    ensures
        res == u32::MAX,
{
    <u32 as Bounded>::max_value()
}

/// Calls `<u32 as num_traits::Zero>::zero`, which returns 0.
#[verifier::external_body]
pub(crate) fn zero_u32() -> (res: u32)
    ensures
        res == 0,
{
    <u32 as Zero>::zero()
}

/// Calls `<u64 as num_traits::Bounded>::min_value`, which returns
/// `u64::MIN`.
#[verifier::external_body]
pub(crate) fn min_value_u64() -> (res: u64)
    ensures
        res == u64::MIN,
{
    <u64 as Bounded>::min_value()
}

/// Calls `<u64 as num_traits::Bounded>::max_value`, which returns
/// `u64::MAX`.
#[verifier::external_body]
pub(crate) fn max_value_u64() -> (res: u64)
    ensures
        res == u64::MAX,
{
    <u64 as Bounded>::max_value()
}

/// Calls `<u64 as num_traits::Zero>::zero`, which returns 0.
#[verifier::external_body]
pub(crate) fn zero_u64() -> (res: u64)
    ensures
        res == 0,
{
    <u64 as Zero>::zero()
}

/// Calls `<u128 as num_traits::Bounded>::min_value`, which returns
/// `u128::MIN`.
#[verifier::external_body]
pub(crate) fn min_value_u128() -> (res: u128)
    ensures
        res == u128::MIN,
{
    <u128 as Bounded>::min_value()
}

/// Calls `<u128 as num_traits::Bounded>::max_value`, which returns
/// `u128::MAX`.
#[verifier::external_body]
pub(crate) fn max_value_u128() -> (res: u128)
    ensures
        res == u128::MAX,
{
    <u128 as Bounded>::max_value()
}

/// Calls `<u128 as num_traits::Zero>::zero`, which returns 0.
#[verifier::external_body]
pub(crate) fn zero_u128() -> (res: u128)
    ensures
        res == 0,
{
    <u128 as Zero>::zero()
}

/// Calls `<usize as num_traits::Bounded>::min_value`, which returns
/// `usize::MIN`.
#[verifier::external_body]
pub(crate) fn min_value_usize() -> (res: usize)
    ensures
        res == usize::MIN,
{
    <usize as Bounded>::min_value()
}

/// Calls `<usize as num_traits::Bounded>::max_value`, which returns
/// `usize::MAX`.
#[verifier::external_body]
pub(crate) fn max_value_usize() -> (res: usize)
    ensures
        res == usize::MAX,
{
    <usize as Bounded>::max_value()
}

/// Calls `<usize as num_traits::Zero>::zero`, which returns 0.
#[verifier::external_body]
pub(crate) fn zero_usize() -> (res: usize)
    ensures
        res == 0,
{
    <usize as Zero>::zero()
}

} // verus!
