//! The running total of a whole partition.

use crate::element_type::ExactKind;
use crate::error::SumError;
use crate::native::fold_batch;
use crate::values::{Column, ScalarValue};
use vstd::prelude::*;

verus! {

/// Sums the batches of a partition. The total is null until a batch has
/// brought a value.
#[derive(Debug)]
pub struct SumAccumulator {
    sum: ScalarValue,
}

impl View for SumAccumulator {
    type V = Option<int>;

    /// The total so far, if a value has reached it.
    closed spec fn view(&self) -> Option<int> {
        self.sum.value()
    }
}

impl SumAccumulator {
    /// The kind that the accumulator was made for.
    pub closed spec fn spec_kind(&self) -> ExactKind {
        self.sum.spec_kind()
    }

    /// An accumulator for a kind, with a null total.
    pub fn new(kind: ExactKind) -> (r: Self)
        ensures
            r.spec_kind() == kind,
            r@ is None,
    {
        SumAccumulator { sum: ScalarValue::null(kind) }
    }

    /// The kind that the accumulator was made for.
    pub fn kind(&self) -> (r: ExactKind)
        ensures
            r == self.spec_kind(),
    {
        self.sum.kind()
    }

    /// Adds the values of a batch to the total. Nulls are passed over, and a
    /// batch without a value leaves the total as it was.
    ///
    /// Fails with `Internal`, and changes nothing, exactly when the batch is
    /// of another representation than the accumulator's kind.
    pub fn update_batch(&mut self, values: &Column) -> (r: Result<(), SumError>)
        ensures
            final(self).spec_kind() == old(self).spec_kind(),
            values.stored_as(old(self).spec_kind()) ==> r is Ok && final(self)@ == old(
                self,
            ).spec_kind().fold(old(self)@, values@),
            !values.stored_as(old(self).spec_kind()) ==> r == Err::<(), SumError>(
                SumError::Internal,
            ) && final(self)@ == old(self)@,
    {
        let next = match (self.sum, values) {
            (ScalarValue::Int64(current), Column::Int64(v)) => ScalarValue::Int64(
                fold_batch(current, v),
            ),
            (ScalarValue::UInt64(current), Column::UInt64(v)) => ScalarValue::UInt64(
                fold_batch(current, v),
            ),
            (ScalarValue::Decimal128(current, precision, scale), Column::Decimal128(v)) => {
                ScalarValue::Decimal128(fold_batch(current, v), precision, scale)
            },
            (ScalarValue::Decimal256(current, precision, scale), Column::Decimal256(v)) => {
                ScalarValue::Decimal256(fold_batch(current, v), precision, scale)
            },
            _ => {
                return Err(SumError::Internal);
            },
        };
        self.sum = next;
        Ok(())
    }

    /// Adds the partial totals of other accumulators, one to a row, to the
    /// total: a column of partial totals is added as a batch of values is.
    ///
    /// Fails with `Internal`, and changes nothing, exactly when the column is
    /// of another representation than the accumulator's kind.
    pub fn merge_batch(&mut self, states: &Column) -> (r: Result<(), SumError>)
        ensures
            final(self).spec_kind() == old(self).spec_kind(),
            states.stored_as(old(self).spec_kind()) ==> r is Ok && final(self)@ == old(
                self,
            ).spec_kind().fold(old(self)@, states@),
            !states.stored_as(old(self).spec_kind()) ==> r == Err::<(), SumError>(
                SumError::Internal,
            ) && final(self)@ == old(self)@,
    {
        self.update_batch(states)
    }

    /// The total: null if no value has reached it.
    pub fn evaluate(&self) -> (r: ScalarValue)
        ensures
            r.spec_kind() == self.spec_kind(),
            r.value() == self@,
    {
        self.sum
    }

    /// The partial total, for a merge into another accumulator: one value,
    /// which is what `evaluate` gives.
    pub fn state(&self) -> (r: Vec<ScalarValue>)
        ensures
            r@.len() == 1,
            r@[0].spec_kind() == self.spec_kind(),
            r@[0].value() == self@,
    {
        let mut fields = Vec::new();
        fields.push(self.evaluate());
        fields
    }
}

} // verus!
