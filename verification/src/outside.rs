//! The calls into arrow and datafusion: arrow's wrapping arithmetic on the four
//! native types, its sum of a primitive array and its decimal limits, and
//! datafusion's name of a state field. Their contracts are taken on trust.

use crate::cells::{batch_sum, cell_with, cells_with};
use crate::modular::wrap;
use crate::native::I256;
use arrow::array::{
    ArrowNativeTypeOp, Decimal128Array, Decimal256Array, Int64Array, UInt64Array,
};
use arrow::datatypes::i256;
use vstd::prelude::*;

verus! {

/// `ArrowNativeTypeOp::add_wrapping` on `i64`, which is `i64::wrapping_add`:
/// the sum modulo 2^64, in the range of `i64`.
#[verifier::external_body]
pub(crate) fn add_wrapping_i64(a: i64, b: i64) -> (r: i64)
    ensures
        r as int == wrap(i64::MIN as int, u64::MAX + 1, a + b),
{
    ArrowNativeTypeOp::add_wrapping(a, b)
}

/// `ArrowNativeTypeOp::sub_wrapping` on `i64`, which is `i64::wrapping_sub`:
/// the difference modulo 2^64, in the range of `i64`.
#[verifier::external_body]
pub(crate) fn sub_wrapping_i64(a: i64, b: i64) -> (r: i64)
    ensures
        r as int == wrap(i64::MIN as int, u64::MAX + 1, a - b),
{
    ArrowNativeTypeOp::sub_wrapping(a, b)
}

/// `arrow::compute::sum` on an `Int64Array` with the given cells: `None` for an
/// empty or all-null array, else the sum of the values that are not null.
/// arrow adds them with `add_wrapping`, in an order of its own; whatever the
/// order, that is their total wrapped modulo 2^64 into the range of `i64`.
#[verifier::external_body]
pub(crate) fn sum_i64(values: &Vec<Option<i64>>) -> (r: Option<i64>)
    ensures
        cell_with(r, |x: i64| x as int) == batch_sum(
            i64::MIN as int,
            u64::MAX + 1,
            cells_with(values@, |x: i64| x as int),
        ),
{
    let array: Int64Array = values.iter().collect();
    arrow::compute::sum(&array)
}

/// `ArrowNativeTypeOp::add_wrapping` on `u64`, which is `u64::wrapping_add`:
/// the sum modulo 2^64.
#[verifier::external_body]
pub(crate) fn add_wrapping_u64(a: u64, b: u64) -> (r: u64)
    ensures
        r as int == wrap(0, u64::MAX + 1, a + b),
{
    ArrowNativeTypeOp::add_wrapping(a, b)
}

/// `ArrowNativeTypeOp::sub_wrapping` on `u64`, which is `u64::wrapping_sub`:
/// the difference modulo 2^64.
#[verifier::external_body]
pub(crate) fn sub_wrapping_u64(a: u64, b: u64) -> (r: u64)
    ensures
        r as int == wrap(0, u64::MAX + 1, a - b),
{
    ArrowNativeTypeOp::sub_wrapping(a, b)
}

/// `arrow::compute::sum` on a `UInt64Array` with the given cells: `None` for an
/// empty or all-null array, else the sum of the values that are not null.
/// arrow adds them with `add_wrapping`, in an order of its own; whatever the
/// order, that is their total wrapped modulo 2^64.
#[verifier::external_body]
pub(crate) fn sum_u64(values: &Vec<Option<u64>>) -> (r: Option<u64>)
    ensures
        cell_with(r, |x: u64| x as int) == batch_sum(
            0,
            u64::MAX + 1,
            cells_with(values@, |x: u64| x as int),
        ),
{
    let array: UInt64Array = values.iter().collect();
    arrow::compute::sum(&array)
}

/// `ArrowNativeTypeOp::add_wrapping` on `i128`, which is `i128::wrapping_add`:
/// the sum modulo 2^128, in the range of `i128`.
#[verifier::external_body]
pub(crate) fn add_wrapping_i128(a: i128, b: i128) -> (r: i128)
    ensures
        r as int == wrap(
            i128::MIN as int,
            u128::MAX + 1,
            a + b,
        ),
{
    ArrowNativeTypeOp::add_wrapping(a, b)
}

/// `ArrowNativeTypeOp::sub_wrapping` on `i128`, which is `i128::wrapping_sub`:
/// the difference modulo 2^128, in the range of `i128`.
#[verifier::external_body]
pub(crate) fn sub_wrapping_i128(a: i128, b: i128) -> (r: i128)
    ensures
        r as int == wrap(
            i128::MIN as int,
            u128::MAX + 1,
            a - b,
        ),
{
    ArrowNativeTypeOp::sub_wrapping(a, b)
}

/// `arrow::compute::sum` on a `Decimal128Array` with the given cells: `None` for an
/// empty or all-null array, else the sum of the values that are not null.
/// arrow adds them with `add_wrapping`, in an order of its own; whatever the
/// order, that is their total wrapped modulo 2^128 into the range of `i128`.
#[verifier::external_body]
pub(crate) fn sum_i128(values: &Vec<Option<i128>>) -> (r: Option<i128>)
    ensures
        cell_with(r, |x: i128| x as int) == batch_sum(
            i128::MIN as int,
            u128::MAX + 1,
            cells_with(values@, |x: i128| x as int),
        ),
{
    let array: Decimal128Array = values.iter().collect();
    arrow::compute::sum(&array)
}

/// `ArrowNativeTypeOp::add_wrapping` on arrow's `i256`, which is
/// `i256::wrapping_add`: the low halves are added, and the carry and the high
/// halves, each wrapping, so that the result is the sum modulo 2^256.
#[verifier::external_body]
pub(crate) fn add_wrapping_i256(a: I256, b: I256) -> (r: I256)
    ensures
        r.as_int() == wrap(
            I256::lowest_int(),
            I256::modulus_int(),
            a.as_int() + b.as_int(),
        ),
{
    let sum = i256::from_parts(a.low, a.high).add_wrapping(i256::from_parts(b.low, b.high));
    let (low, high) = sum.to_parts();
    I256 { low, high }
}

/// `ArrowNativeTypeOp::sub_wrapping` on arrow's `i256`, which is
/// `i256::wrapping_sub`: the difference modulo 2^256.
#[verifier::external_body]
pub(crate) fn sub_wrapping_i256(a: I256, b: I256) -> (r: I256)
    ensures
        r.as_int() == wrap(
            I256::lowest_int(),
            I256::modulus_int(),
            a.as_int() - b.as_int(),
        ),
{
    let difference = i256::from_parts(a.low, a.high).sub_wrapping(i256::from_parts(b.low, b.high));
    let (low, high) = difference.to_parts();
    I256 { low, high }
}

/// `arrow::compute::sum` on a `Decimal256Array` with the given cells: `None` for an
/// empty or all-null array, else the sum of the values that are not null.
/// arrow adds them with `add_wrapping`, in an order of its own; whatever the
/// order, that is their total wrapped modulo 2^256 into the range of `i256`.
#[verifier::external_body]
pub(crate) fn sum_i256(values: &Vec<Option<I256>>) -> (r: Option<I256>)
    ensures
        cell_with(r, |x: I256| x.as_int()) == batch_sum(
            I256::lowest_int(),
            I256::modulus_int(),
            cells_with(values@, |x: I256| x.as_int()),
        ),
{
    let cells = values.iter().map(|v| v.map(|x| i256::from_parts(x.low, x.high)));
    let array: Decimal256Array = cells.collect();
    arrow::compute::sum(&array).map(|s| I256 { low: s.to_parts().0, high: s.to_parts().1 })
}

/// arrow's `DECIMAL128_MAX_PRECISION`, the largest precision of a 128-bit
/// decimal: 38.
#[verifier::external_body]
pub(crate) fn decimal128_max_precision() -> (r: u8)
    ensures
        r == 38,
{
    arrow::datatypes::DECIMAL128_MAX_PRECISION
}

/// arrow's `DECIMAL256_MAX_PRECISION`, the largest precision of a 256-bit
/// decimal: 76.
#[verifier::external_body]
pub(crate) fn decimal256_max_precision() -> (r: u8)
    ensures
        r == 76,
{
    arrow::datatypes::DECIMAL256_MAX_PRECISION
}

/// `datafusion_expr::utils::format_state_name`: the name of the aggregate,
/// then the name of the state in square brackets.
#[verifier::external_body]
pub(crate) fn format_state_name(name: &str, state_name: &str) -> (r: String)
    ensures
        r@ == name@ + seq!['['] + state_name@ + seq![']'],
{
    datafusion_expr::utils::format_state_name(name, state_name)
}

} // verus!
