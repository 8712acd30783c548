//! The running total of a sliding window, which rows enter and leave.

use crate::cells::{lemma_count_zero, non_null_count, non_null_total};
use crate::element_type::ExactKind;
use crate::error::SumError;
use crate::modular::lemma_wrap_fixed;
use crate::native::{add_batch, sub_batch, Arithmetic};
use crate::values::{Column, NativeValue, ScalarValue};
use vstd::prelude::*;

verus! {

/// The state of a sliding sum, as mathematics.
pub struct Window {
    /// The kind of the values.
    pub kind: ExactKind,
    /// The total of the values in the window; zero for an empty window.
    pub sum: int,
    /// The number of rows in the window that hold a value.
    pub count: nat,
}

impl Window {
    /// The total lies in the range of the kind, and the count in that of
    /// `u64`.
    pub open spec fn wf(self) -> bool {
        &&& self.kind.lowest() <= self.sum < self.kind.lowest() + self.kind.modulus()
        &&& self.count <= u64::MAX
    }

    /// The state after the rows of a batch have entered the window.
    pub open spec fn updated(self, batch: Seq<Option<int>>) -> Window {
        Window {
            kind: self.kind,
            sum: self.kind.wrap(self.sum + non_null_total(batch)),
            count: self.count + non_null_count(batch),
        }
    }

    /// The state after the rows of a batch have left the window.
    pub open spec fn retracted(self, batch: Seq<Option<int>>) -> Window {
        Window {
            kind: self.kind,
            sum: self.kind.wrap(self.sum - non_null_total(batch)),
            count: (self.count - non_null_count(batch)) as nat,
        }
    }

    /// The state after partial states, a total and a count to a row, have
    /// been merged into it.
    pub open spec fn merged(self, sums: Seq<Option<int>>, counts: Seq<Option<int>>) -> Window {
        Window {
            kind: self.kind,
            sum: self.kind.wrap(self.sum + non_null_total(sums)),
            count: (self.count + non_null_total(counts)) as nat,
        }
    }

    /// What the window gives: null for a window without a value, whatever
    /// the total, else the total.
    pub open spec fn evaluate(self) -> Option<int> {
        if self.count == 0 {
            None
        } else {
            Some(self.sum)
        }
    }
}

/// Sums the rows of a window. Beside the total it counts the rows that hold a
/// value, so that a window without a value gives null and a window whose
/// values add up to zero gives zero.
#[derive(Debug)]
pub struct SlidingSumAccumulator {
    sum: NativeValue,
    count: u64,
}

impl View for SlidingSumAccumulator {
    type V = Window;

    closed spec fn view(&self) -> Window {
        Window { kind: self.sum.spec_kind(), sum: self.sum.value(), count: self.count as nat }
    }
}

impl SlidingSumAccumulator {
    /// An accumulator for a kind, with an empty window.
    pub fn new(kind: ExactKind) -> (r: Self)
        ensures
            r@ == (Window { kind, sum: 0, count: 0 }),
    {
        SlidingSumAccumulator { sum: NativeValue::zero(kind), count: 0 }
    }

    /// The kind that the accumulator was made for.
    pub fn kind(&self) -> (r: ExactKind)
        ensures
            r == self@.kind,
    {
        self.sum.kind()
    }

    /// The number of rows in the window that hold a value.
    pub fn count(&self) -> (r: u64)
        ensures
            r == self@.count,
    {
        self.count
    }

    /// The state of an accumulator is well formed.
    pub proof fn lemma_state_wf(&self)
        ensures
            self@.wf(),
    {
        self.sum.lemma_range();
    }

    /// Two accumulators in the same state are the same.
    pub proof fn lemma_state_determines(&self, other: &SlidingSumAccumulator)
        requires
            self@ == other@,
        ensures
            *self == *other,
    {
        self.sum.lemma_value_determines(other.sum);
    }

    /// Lets the rows of a batch enter the window: their values are added to
    /// the total, wrapping, and counted. Nulls are passed over.
    ///
    /// Fails with `Internal`, and changes nothing, exactly when the batch is
    /// of another representation than the accumulator's kind.
    pub fn update_batch(&mut self, values: &Column) -> (r: Result<(), SumError>)
        requires
            old(self)@.count + non_null_count(values@) <= u64::MAX,
        ensures
            values.stored_as(old(self)@.kind) ==> r is Ok && final(self)@ == old(self)@.updated(
                values@,
            ),
            !values.stored_as(old(self)@.kind) ==> r == Err::<(), SumError>(SumError::Internal)
                && final(self)@ == old(self)@,
    {
        let next = match (self.sum, values) {
            (NativeValue::Int64(total), Column::Int64(v)) => NativeValue::Int64(
                add_batch(total, v),
            ),
            (NativeValue::UInt64(total), Column::UInt64(v)) => NativeValue::UInt64(
                add_batch(total, v),
            ),
            (NativeValue::Decimal128(total, precision, scale), Column::Decimal128(v)) => {
                NativeValue::Decimal128(add_batch(total, v), precision, scale)
            },
            (NativeValue::Decimal256(total, precision, scale), Column::Decimal256(v)) => {
                NativeValue::Decimal256(add_batch(total, v), precision, scale)
            },
            _ => {
                return Err(SumError::Internal);
            },
        };
        let entering = values.non_null_count();
        self.count = self.count + entering as u64;
        self.sum = next;
        Ok(())
    }

    /// Lets the rows of a batch leave the window: their values are taken
    /// from the total, wrapping, and the count goes down by their number.
    ///
    /// The rows must be in the window: the batch holds no more values than
    /// the count says.
    ///
    /// Fails with `Internal`, and changes nothing, exactly when the batch is
    /// of another representation than the accumulator's kind.
    pub fn retract_batch(&mut self, values: &Column) -> (r: Result<(), SumError>)
        requires
            non_null_count(values@) <= old(self)@.count,
        ensures
            values.stored_as(old(self)@.kind) ==> r is Ok && final(self)@ == old(
                self,
            )@.retracted(values@),
            !values.stored_as(old(self)@.kind) ==> r == Err::<(), SumError>(SumError::Internal)
                && final(self)@ == old(self)@,
    {
        let next = match (self.sum, values) {
            (NativeValue::Int64(total), Column::Int64(v)) => NativeValue::Int64(
                sub_batch(total, v),
            ),
            (NativeValue::UInt64(total), Column::UInt64(v)) => NativeValue::UInt64(
                sub_batch(total, v),
            ),
            (NativeValue::Decimal128(total, precision, scale), Column::Decimal128(v)) => {
                NativeValue::Decimal128(sub_batch(total, v), precision, scale)
            },
            (NativeValue::Decimal256(total, precision, scale), Column::Decimal256(v)) => {
                NativeValue::Decimal256(sub_batch(total, v), precision, scale)
            },
            _ => {
                return Err(SumError::Internal);
            },
        };
        let leaving = values.non_null_count();
        self.count = self.count - leaving as u64;
        self.sum = next;
        Ok(())
    }

    /// Adds the partial states of other accumulators, one to a row: the
    /// partial totals are added to the total, wrapping, and the partial
    /// counts to the count.
    ///
    /// Fails with `Internal`, and changes nothing, exactly when the totals
    /// are of another representation than the accumulator's kind, or the
    /// counts are not unsigned 64-bit integers.
    pub fn merge_batch(&mut self, sums: &Column, counts: &Column) -> (r: Result<(), SumError>)
        requires
            old(self)@.count + non_null_total(counts@) <= u64::MAX,
        ensures
            sums.stored_as(old(self)@.kind) && counts.stored_as(ExactKind::UInt64) ==> r is Ok
                && final(self)@ == old(self)@.merged(sums@, counts@),
            !(sums.stored_as(old(self)@.kind) && counts.stored_as(ExactKind::UInt64)) ==> r
                == Err::<(), SumError>(SumError::Internal) && final(self)@ == old(self)@,
    {
        let partial = match counts {
            Column::UInt64(c) => u64::sum(c),
            _ => {
                return Err(SumError::Internal);
            },
        };
        let next = match (self.sum, sums) {
            (NativeValue::Int64(total), Column::Int64(v)) => NativeValue::Int64(
                add_batch(total, v),
            ),
            (NativeValue::UInt64(total), Column::UInt64(v)) => NativeValue::UInt64(
                add_batch(total, v),
            ),
            (NativeValue::Decimal128(total, precision, scale), Column::Decimal128(v)) => {
                NativeValue::Decimal128(add_batch(total, v), precision, scale)
            },
            (NativeValue::Decimal256(total, precision, scale), Column::Decimal256(v)) => {
                NativeValue::Decimal256(add_batch(total, v), precision, scale)
            },
            _ => {
                return Err(SumError::Internal);
            },
        };
        proof {
            lemma_count_zero(counts@);
            lemma_totals_of_counts(counts@);
            lemma_wrap_fixed(0, u64::MAX + 1, non_null_total(counts@));
        }
        if let Some(entering) = partial {
            self.count = self.count + entering;
        }
        self.sum = next;
        Ok(())
    }

    /// The total of the window: null exactly for a window without a value.
    pub fn evaluate(&self) -> (r: ScalarValue)
        ensures
            r.spec_kind() == self@.kind,
            r.value() == self@.evaluate(),
            r.value() is None <==> self@.count == 0,
    {
        if self.count != 0 {
            ScalarValue::present(self.sum)
        } else {
            ScalarValue::null(self.sum.kind())
        }
    }

    /// The partial state, for a merge into another accumulator: what
    /// `evaluate` gives, then the count.
    pub fn state(&self) -> (r: Vec<ScalarValue>)
        ensures
            r@.len() == 2,
            r@[0].spec_kind() == self@.kind,
            r@[0].value() == self@.evaluate(),
            r@[1] == ScalarValue::UInt64(Some(self@.count as u64)),
    {
        let mut fields = Vec::new();
        fields.push(self.evaluate());
        fields.push(ScalarValue::UInt64(Some(self.count)));
        fields
    }

    /// Rows can leave the window.
    pub fn supports_retract_batch(&self) -> (r: bool)
        ensures
            r,
    {
        true
    }
}

/// The total of a column of unsigned integers is not negative.
proof fn lemma_totals_of_counts(cells: Seq<Option<int>>)
    requires
        forall|i: int| 0 <= i < cells.len() && cells[i] is Some ==> cells[i].unwrap() >= 0,
    ensures
        non_null_total(cells) >= 0,
    decreases cells.len(),
{
    if cells.len() > 0 {
        let front = cells.drop_last();
        assert forall|i: int| 0 <= i < front.len() && front[i] is Some implies front[i].unwrap()
            >= 0 by {
            assert(front[i] == cells[i]);
        }
        lemma_totals_of_counts(front);
    }
}

} // verus!
