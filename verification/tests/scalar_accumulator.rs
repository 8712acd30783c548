use sum_aggregate::element_type::ExactKind;
use sum_aggregate::error::SumError;
use sum_aggregate::native::I256;
use sum_aggregate::scalar::SumAccumulator;
use sum_aggregate::values::{Column, ScalarValue};

#[test]
fn int64_column_with_a_null_sums_to_seven() {
    let mut acc = SumAccumulator::new(ExactKind::Int64);
    acc.update_batch(&Column::Int64(vec![Some(1), Some(2), None, Some(4)])).unwrap();
    assert_eq!(acc.evaluate(), ScalarValue::Int64(Some(7)));
}

#[test]
fn new_accumulator_is_null() {
    let acc = SumAccumulator::new(ExactKind::UInt64);
    assert_eq!(acc.kind(), ExactKind::UInt64);
    assert_eq!(acc.evaluate(), ScalarValue::UInt64(None));
    assert!(acc.evaluate().is_null());
}

#[test]
fn all_null_batch_leaves_null() {
    let mut acc = SumAccumulator::new(ExactKind::Int64);
    acc.update_batch(&Column::Int64(vec![None, None, None])).unwrap();
    assert_eq!(acc.evaluate(), ScalarValue::Int64(None));
}

#[test]
fn empty_batch_leaves_null() {
    let mut acc = SumAccumulator::new(ExactKind::Int64);
    acc.update_batch(&Column::Int64(vec![])).unwrap();
    assert_eq!(acc.evaluate(), ScalarValue::Int64(None));
}

#[test]
fn one_value_among_nulls_is_not_null() {
    let mut acc = SumAccumulator::new(ExactKind::Int64);
    acc.update_batch(&Column::Int64(vec![None, Some(0), None])).unwrap();
    assert_eq!(acc.evaluate(), ScalarValue::Int64(Some(0)));
    assert!(!acc.evaluate().is_null());
}

#[test]
fn all_null_batch_keeps_an_earlier_total() {
    let mut acc = SumAccumulator::new(ExactKind::Int64);
    acc.update_batch(&Column::Int64(vec![Some(5), Some(-2)])).unwrap();
    acc.update_batch(&Column::Int64(vec![None, None])).unwrap();
    assert_eq!(acc.evaluate(), ScalarValue::Int64(Some(3)));
}

#[test]
fn batches_add_up() {
    let mut acc = SumAccumulator::new(ExactKind::Int64);
    acc.update_batch(&Column::Int64(vec![Some(10), Some(20)])).unwrap();
    acc.update_batch(&Column::Int64(vec![Some(-45), None])).unwrap();
    assert_eq!(acc.evaluate(), ScalarValue::Int64(Some(-15)));
}

#[test]
fn int64_maximum_plus_one_wraps_to_the_minimum() {
    let mut acc = SumAccumulator::new(ExactKind::Int64);
    acc.update_batch(&Column::Int64(vec![Some(i64::MAX)])).unwrap();
    acc.update_batch(&Column::Int64(vec![Some(1)])).unwrap();
    assert_eq!(acc.evaluate(), ScalarValue::Int64(Some(i64::MIN)));
}

#[test]
fn int64_wraps_within_one_batch() {
    let mut acc = SumAccumulator::new(ExactKind::Int64);
    acc.update_batch(&Column::Int64(vec![Some(i64::MAX), None, Some(1)])).unwrap();
    assert_eq!(acc.evaluate(), ScalarValue::Int64(Some(i64::MIN)));
}

#[test]
fn int64_minimum_minus_one_wraps_to_the_maximum() {
    let mut acc = SumAccumulator::new(ExactKind::Int64);
    acc.update_batch(&Column::Int64(vec![Some(i64::MIN)])).unwrap();
    acc.update_batch(&Column::Int64(vec![Some(-1)])).unwrap();
    assert_eq!(acc.evaluate(), ScalarValue::Int64(Some(i64::MAX)));
}

#[test]
fn uint64_maximum_plus_one_wraps_to_zero() {
    let mut acc = SumAccumulator::new(ExactKind::UInt64);
    acc.update_batch(&Column::UInt64(vec![Some(u64::MAX)])).unwrap();
    acc.update_batch(&Column::UInt64(vec![Some(1)])).unwrap();
    assert_eq!(acc.evaluate(), ScalarValue::UInt64(Some(0)));
}

#[test]
fn uint64_batch_sum_wraps() {
    let mut acc = SumAccumulator::new(ExactKind::UInt64);
    acc.update_batch(&Column::UInt64(vec![Some(u64::MAX), Some(u64::MAX), Some(3)])).unwrap();
    assert_eq!(acc.evaluate(), ScalarValue::UInt64(Some(1)));
}

#[test]
fn decimal128_keeps_precision_and_scale() {
    let mut acc = SumAccumulator::new(ExactKind::Decimal128(15, 2));
    acc.update_batch(&Column::Decimal128(vec![Some(12345), None, Some(-345)])).unwrap();
    assert_eq!(acc.kind(), ExactKind::Decimal128(15, 2));
    assert_eq!(acc.evaluate(), ScalarValue::Decimal128(Some(12000), 15, 2));
}

#[test]
fn decimal128_is_wider_than_64_bits() {
    let mut acc = SumAccumulator::new(ExactKind::Decimal128(38, 0));
    acc.update_batch(&Column::Decimal128(vec![Some(i64::MAX as i128)])).unwrap();
    acc.update_batch(&Column::Decimal128(vec![Some(1)])).unwrap();
    assert_eq!(acc.evaluate(), ScalarValue::Decimal128(Some(1i128 << 63), 38, 0));
}

#[test]
fn decimal128_maximum_plus_one_wraps_to_the_minimum() {
    let mut acc = SumAccumulator::new(ExactKind::Decimal128(38, 0));
    acc.update_batch(&Column::Decimal128(vec![Some(i128::MAX)])).unwrap();
    acc.update_batch(&Column::Decimal128(vec![Some(1)])).unwrap();
    assert_eq!(acc.evaluate(), ScalarValue::Decimal128(Some(i128::MIN), 38, 0));
}

#[test]
fn decimal256_adds_small_values() {
    let mut acc = SumAccumulator::new(ExactKind::Decimal256(40, 3));
    let seven = I256 { low: 7, high: 0 };
    let minus_two = I256 { low: u128::MAX - 1, high: -1 };
    acc.update_batch(&Column::Decimal256(vec![Some(seven), None])).unwrap();
    acc.update_batch(&Column::Decimal256(vec![Some(minus_two)])).unwrap();
    assert_eq!(acc.evaluate(), ScalarValue::Decimal256(Some(I256 { low: 5, high: 0 }), 40, 3));
}

#[test]
fn decimal256_carries_into_the_high_half() {
    let mut acc = SumAccumulator::new(ExactKind::Decimal256(76, 0));
    acc.update_batch(&Column::Decimal256(vec![Some(I256 { low: u128::MAX, high: 0 })])).unwrap();
    acc.update_batch(&Column::Decimal256(vec![Some(I256 { low: 1, high: 0 })])).unwrap();
    assert_eq!(acc.evaluate(), ScalarValue::Decimal256(Some(I256 { low: 0, high: 1 }), 76, 0));
}

#[test]
fn decimal256_batch_sum_carries() {
    let mut acc = SumAccumulator::new(ExactKind::Decimal256(76, 0));
    let big = I256 { low: u128::MAX, high: 2 };
    acc.update_batch(&Column::Decimal256(vec![Some(big), None, Some(big)])).unwrap();
    assert_eq!(
        acc.evaluate(),
        ScalarValue::Decimal256(Some(I256 { low: u128::MAX - 1, high: 5 }), 76, 0)
    );
}

#[test]
fn decimal256_maximum_plus_one_wraps_to_the_minimum() {
    let mut acc = SumAccumulator::new(ExactKind::Decimal256(76, 0));
    acc.update_batch(&Column::Decimal256(vec![Some(I256 { low: u128::MAX, high: i128::MAX })]))
        .unwrap();
    acc.update_batch(&Column::Decimal256(vec![Some(I256 { low: 1, high: 0 })])).unwrap();
    assert_eq!(
        acc.evaluate(),
        ScalarValue::Decimal256(Some(I256 { low: 0, high: i128::MIN }), 76, 0)
    );
}

#[test]
fn batch_of_another_representation_is_an_internal_error() {
    let mut acc = SumAccumulator::new(ExactKind::Int64);
    acc.update_batch(&Column::Int64(vec![Some(3)])).unwrap();
    assert_eq!(acc.update_batch(&Column::UInt64(vec![Some(1)])), Err(SumError::Internal));
    assert_eq!(acc.update_batch(&Column::Decimal128(vec![Some(1)])), Err(SumError::Internal));
    assert_eq!(acc.merge_batch(&Column::Decimal256(vec![])), Err(SumError::Internal));
    assert_eq!(acc.evaluate(), ScalarValue::Int64(Some(3)));
}

#[test]
fn decimal_batch_fits_whatever_the_precision() {
    let mut acc = SumAccumulator::new(ExactKind::Decimal128(20, 4));
    assert_eq!(acc.update_batch(&Column::Decimal128(vec![Some(1)])), Ok(()));
    assert_eq!(acc.update_batch(&Column::Decimal256(vec![])), Err(SumError::Internal));
}

#[test]
fn state_is_the_total() {
    let mut acc = SumAccumulator::new(ExactKind::Int64);
    assert_eq!(acc.state(), vec![ScalarValue::Int64(None)]);
    acc.update_batch(&Column::Int64(vec![Some(4), Some(5)])).unwrap();
    assert_eq!(acc.state(), vec![ScalarValue::Int64(Some(9))]);
    assert_eq!(acc.evaluate(), ScalarValue::Int64(Some(9)));
}

#[test]
fn merge_adds_partial_totals() {
    let mut acc = SumAccumulator::new(ExactKind::Int64);
    acc.merge_batch(&Column::Int64(vec![Some(3), None, Some(4)])).unwrap();
    assert_eq!(acc.evaluate(), ScalarValue::Int64(Some(7)));
    acc.merge_batch(&Column::Int64(vec![None])).unwrap();
    assert_eq!(acc.evaluate(), ScalarValue::Int64(Some(7)));
}

fn partial(batch: Vec<Option<i64>>) -> Option<i64> {
    let mut acc = SumAccumulator::new(ExactKind::Int64);
    acc.update_batch(&Column::Int64(batch)).unwrap();
    match acc.state()[0] {
        ScalarValue::Int64(v) => v,
        _ => unreachable!(),
    }
}

fn merged(first: Vec<Option<i64>>, second: Vec<Option<i64>>) -> ScalarValue {
    let mut acc = SumAccumulator::new(ExactKind::Int64);
    acc.merge_batch(&Column::Int64(vec![partial(first), partial(second)])).unwrap();
    acc.evaluate()
}

fn whole(batch: Vec<Option<i64>>) -> ScalarValue {
    let mut acc = SumAccumulator::new(ExactKind::Int64);
    acc.update_batch(&Column::Int64(batch)).unwrap();
    acc.evaluate()
}

#[test]
fn merge_of_two_parts_is_the_sum_of_the_whole() {
    let first = vec![Some(1), None, Some(10)];
    let second = vec![Some(-4), Some(100)];
    let mut all = first.clone();
    all.extend(second.clone());
    assert_eq!(merged(first, second), ScalarValue::Int64(Some(107)));
    assert_eq!(whole(all), ScalarValue::Int64(Some(107)));
}

#[test]
fn merge_of_two_parts_with_a_null_part() {
    assert_eq!(merged(vec![None, None], vec![Some(8)]), ScalarValue::Int64(Some(8)));
    assert_eq!(merged(vec![Some(8)], vec![]), ScalarValue::Int64(Some(8)));
    assert_eq!(merged(vec![None], vec![]), ScalarValue::Int64(None));
    assert_eq!(whole(vec![None]), ScalarValue::Int64(None));
}

#[test]
fn merge_of_two_parts_wraps_as_the_whole_does() {
    let first = vec![Some(i64::MAX), Some(5)];
    let second = vec![Some(i64::MAX), Some(-3)];
    let mut all = first.clone();
    all.extend(second.clone());
    assert_eq!(merged(first, second), ScalarValue::Int64(Some(0)));
    assert_eq!(whole(all), ScalarValue::Int64(Some(0)));
}

fn long_column(rows: usize) -> Vec<Option<i64>> {
    (0..rows)
        .map(|row| {
            if row % 7 == 3 {
                None
            } else {
                Some((row as i64).wrapping_mul(0x0123_4567_89ab_cdef).wrapping_sub(1 << 62))
            }
        })
        .collect()
}

#[test]
fn long_int64_column_sums_as_its_rows_add_up() {
    for rows in [1usize, 63, 64, 65, 127, 128, 1000, 4099] {
        let column = long_column(rows);
        let expected = column.iter().flatten().fold(0i64, |a, x| a.wrapping_add(*x));
        let mut acc = SumAccumulator::new(ExactKind::Int64);
        acc.update_batch(&Column::Int64(column)).unwrap();
        assert_eq!(acc.evaluate(), ScalarValue::Int64(Some(expected)));
    }
}

#[test]
fn long_int64_column_without_nulls_sums_as_its_rows_add_up() {
    let column: Vec<Option<i64>> = long_column(2000).into_iter().flatten().map(Some).collect();
    let expected = column.iter().flatten().fold(0i64, |a, x| a.wrapping_add(*x));
    let mut acc = SumAccumulator::new(ExactKind::Int64);
    acc.update_batch(&Column::Int64(column)).unwrap();
    assert_eq!(acc.evaluate(), ScalarValue::Int64(Some(expected)));
}

#[test]
fn long_uint64_column_sums_as_its_rows_add_up() {
    let column: Vec<Option<u64>> =
        long_column(1500).into_iter().map(|x| x.map(|v| v as u64)).collect();
    let expected = column.iter().flatten().fold(0u64, |a, x| a.wrapping_add(*x));
    let mut acc = SumAccumulator::new(ExactKind::UInt64);
    acc.update_batch(&Column::UInt64(column)).unwrap();
    assert_eq!(acc.evaluate(), ScalarValue::UInt64(Some(expected)));
}

#[test]
fn long_decimal128_column_sums_as_its_rows_add_up() {
    let column: Vec<Option<i128>> = long_column(1500)
        .into_iter()
        .map(|x| x.map(|v| (v as i128).wrapping_mul(0x1_0000_0000_0000_0001_0000)))
        .collect();
    let expected = column.iter().flatten().fold(0i128, |a, x| a.wrapping_add(*x));
    let mut acc = SumAccumulator::new(ExactKind::Decimal128(38, 4));
    acc.update_batch(&Column::Decimal128(column)).unwrap();
    assert_eq!(acc.evaluate(), ScalarValue::Decimal128(Some(expected), 38, 4));
}

#[test]
fn long_decimal256_column_sums_as_its_rows_add_up() {
    // Each value is `high * 2^128 + low`; the halves add up apart but for the
    // carries out of the low half.
    let column: Vec<Option<I256>> = long_column(1500)
        .into_iter()
        .map(|x| {
            x.map(|v| I256 {
                low: (v as u128).wrapping_mul(0xffff_ffff_ffff_fff1),
                high: v as i128,
            })
        })
        .collect();
    let mut low: u128 = 0;
    let mut high: i128 = 0;
    for value in column.iter().flatten() {
        let (sum, carry) = low.overflowing_add(value.low);
        low = sum;
        high = high.wrapping_add(value.high).wrapping_add(carry as i128);
    }
    let mut acc = SumAccumulator::new(ExactKind::Decimal256(76, 0));
    acc.update_batch(&Column::Decimal256(column)).unwrap();
    assert_eq!(acc.evaluate(), ScalarValue::Decimal256(Some(I256 { low, high }), 76, 0));
}
