use sum_aggregate::element_type::ExactKind;
use sum_aggregate::error::SumError;
use sum_aggregate::grouped::GroupedAccumulator;
use sum_aggregate::native::I256;
use sum_aggregate::scalar::SumAccumulator;
use sum_aggregate::values::{Column, ScalarValue};

#[test]
fn two_groups_of_two_rows() {
    let mut acc = GroupedAccumulator::new(ExactKind::Int64);
    acc.update_batch(
        &Column::Int64(vec![Some(10), Some(20), Some(30), Some(40)]),
        &vec![0, 1, 0, 1],
        2,
    )
    .unwrap();
    assert_eq!(acc.evaluate(), Column::Int64(vec![Some(40), Some(60)]));
}

#[test]
fn new_grouped_accumulator_has_no_group() {
    let acc = GroupedAccumulator::new(ExactKind::Decimal128(10, 1));
    assert_eq!(acc.kind(), ExactKind::Decimal128(10, 1));
    assert_eq!(acc.len(), 0);
    assert_eq!(acc.evaluate(), Column::Decimal128(vec![]));
}

#[test]
fn group_without_a_value_is_null() {
    let mut acc = GroupedAccumulator::new(ExactKind::Int64);
    acc.update_batch(&Column::Int64(vec![Some(5), None, Some(0)]), &vec![0, 1, 3], 4).unwrap();
    assert_eq!(acc.len(), 4);
    assert_eq!(acc.evaluate(), Column::Int64(vec![Some(5), None, None, Some(0)]));
}

#[test]
fn evaluate_keeps_the_totals() {
    let mut acc = GroupedAccumulator::new(ExactKind::Int64);
    acc.update_batch(&Column::Int64(vec![Some(1), Some(2)]), &vec![0, 1], 2).unwrap();
    assert_eq!(acc.evaluate(), Column::Int64(vec![Some(1), Some(2)]));
    assert_eq!(acc.evaluate(), Column::Int64(vec![Some(1), Some(2)]));
    acc.update_batch(&Column::Int64(vec![Some(10), Some(100)]), &vec![1, 2], 3).unwrap();
    assert_eq!(acc.evaluate(), Column::Int64(vec![Some(1), Some(12), Some(100)]));
}

#[test]
fn groups_never_go_away() {
    let mut acc = GroupedAccumulator::new(ExactKind::UInt64);
    acc.update_batch(&Column::UInt64(vec![Some(1), Some(2), Some(3)]), &vec![0, 1, 2], 3).unwrap();
    acc.update_batch(&Column::UInt64(vec![Some(5)]), &vec![2], 1).unwrap();
    assert_eq!(acc.len(), 3);
    assert_eq!(acc.evaluate(), Column::UInt64(vec![Some(1), Some(2), Some(8)]));
    acc.update_batch(&Column::UInt64(vec![]), &vec![], 0).unwrap();
    assert_eq!(acc.evaluate(), Column::UInt64(vec![Some(1), Some(2), Some(8)]));
}

#[test]
fn empty_batch_grows_the_groups() {
    let mut acc = GroupedAccumulator::new(ExactKind::Int64);
    acc.update_batch(&Column::Int64(vec![]), &vec![], 3).unwrap();
    assert_eq!(acc.evaluate(), Column::Int64(vec![None, None, None]));
}

#[test]
fn group_total_wraps() {
    let mut acc = GroupedAccumulator::new(ExactKind::Int64);
    acc.update_batch(&Column::Int64(vec![Some(i64::MAX), Some(7), Some(1)]), &vec![1, 0, 1], 2)
        .unwrap();
    assert_eq!(acc.evaluate(), Column::Int64(vec![Some(7), Some(i64::MIN)]));
}

#[test]
fn uint64_group_total_wraps() {
    let mut acc = GroupedAccumulator::new(ExactKind::UInt64);
    acc.update_batch(&Column::UInt64(vec![Some(u64::MAX), Some(2)]), &vec![0, 0], 1).unwrap();
    assert_eq!(acc.evaluate(), Column::UInt64(vec![Some(1)]));
}

#[test]
fn decimal128_groups() {
    let mut acc = GroupedAccumulator::new(ExactKind::Decimal128(30, 5));
    acc.update_batch(
        &Column::Decimal128(vec![Some(1i128 << 100), Some(-1), None, Some(1i128 << 100)]),
        &vec![0, 1, 1, 0],
        2,
    )
    .unwrap();
    assert_eq!(acc.evaluate(), Column::Decimal128(vec![Some(1i128 << 101), Some(-1)]));
}

#[test]
fn decimal256_groups() {
    let mut acc = GroupedAccumulator::new(ExactKind::Decimal256(60, 0));
    let half = I256 { low: 1u128 << 127, high: 0 };
    acc.update_batch(
        &Column::Decimal256(vec![Some(half), Some(I256 { low: 3, high: -1 }), Some(half)]),
        &vec![0, 1, 0],
        2,
    )
    .unwrap();
    assert_eq!(
        acc.evaluate(),
        Column::Decimal256(vec![Some(I256 { low: 0, high: 1 }), Some(I256 { low: 3, high: -1 })])
    );
}

#[test]
fn grouped_merge_adds_partial_totals() {
    let mut acc = GroupedAccumulator::new(ExactKind::Int64);
    acc.update_batch(&Column::Int64(vec![Some(1), Some(2)]), &vec![0, 1], 3).unwrap();
    acc.merge_batch(&Column::Int64(vec![Some(10), None, Some(30), None]), &vec![0, 1, 2, 2], 3)
        .unwrap();
    assert_eq!(acc.evaluate(), Column::Int64(vec![Some(11), Some(2), Some(30)]));
}

#[test]
fn grouped_merge_of_null_partial_totals_leaves_a_group_null() {
    let mut acc = GroupedAccumulator::new(ExactKind::Int64);
    acc.merge_batch(&Column::Int64(vec![None, Some(0)]), &vec![0, 1], 2).unwrap();
    assert_eq!(acc.evaluate(), Column::Int64(vec![None, Some(0)]));
}

#[test]
fn grouped_state_is_the_totals() {
    let mut acc = GroupedAccumulator::new(ExactKind::Int64);
    acc.update_batch(&Column::Int64(vec![Some(4), None]), &vec![1, 0], 2).unwrap();
    assert_eq!(acc.state(), vec![Column::Int64(vec![None, Some(4)])]);
    assert_eq!(acc.evaluate(), Column::Int64(vec![None, Some(4)]));
}

#[test]
fn grouped_batch_of_another_representation_is_an_internal_error() {
    let mut acc = GroupedAccumulator::new(ExactKind::Int64);
    acc.update_batch(&Column::Int64(vec![Some(4)]), &vec![0], 1).unwrap();
    assert_eq!(
        acc.update_batch(&Column::UInt64(vec![Some(4)]), &vec![0], 5),
        Err(SumError::Internal)
    );
    assert_eq!(
        acc.merge_batch(&Column::Decimal128(vec![Some(4)]), &vec![0], 5),
        Err(SumError::Internal)
    );
    assert_eq!(acc.len(), 1);
    assert_eq!(acc.evaluate(), Column::Int64(vec![Some(4)]));
}

#[test]
fn each_group_is_what_a_scalar_accumulator_gives_for_its_rows() {
    let values = vec![Some(3), None, Some(-8), Some(i64::MAX), None, Some(1), Some(20)];
    let groups = vec![2usize, 0, 1, 2, 3, 2, 1];
    let mut grouped = GroupedAccumulator::new(ExactKind::Int64);
    grouped.update_batch(&Column::Int64(values.clone()), &groups, 5).unwrap();
    let totals = match grouped.evaluate() {
        Column::Int64(v) => v,
        _ => unreachable!(),
    };
    assert_eq!(totals, vec![None, Some(12), Some(i64::MIN + 3), None, None]);
    for group in 0..5 {
        let rows: Vec<Option<i64>> =
            (0..values.len()).filter(|i| groups[*i] == group).map(|i| values[i]).collect();
        let mut scalar = SumAccumulator::new(ExactKind::Int64);
        scalar.update_batch(&Column::Int64(rows)).unwrap();
        assert_eq!(scalar.evaluate(), ScalarValue::Int64(totals[group]));
    }
}
