//! The values that pass between a caller and an accumulator: a column of a
//! batch, a single value, and a single value that may be null.

use crate::cells::non_null_count;
use crate::element_type::ExactKind;
use crate::native::{cells, count_non_null, value_of, Arithmetic, Native, I256};
use vstd::prelude::*;

verus! {

/// A nullable column of one of the four representations.
#[derive(Debug, PartialEq, Eq)]
pub enum Column {
    Int64(Vec<Option<i64>>),
    UInt64(Vec<Option<u64>>),
    Decimal128(Vec<Option<i128>>),
    Decimal256(Vec<Option<I256>>),
}

impl View for Column {
    type V = Seq<Option<int>>;

    /// The cells of the column.
    open spec fn view(&self) -> Seq<Option<int>> {
        match self {
            Column::Int64(v) => cells(v@),
            Column::UInt64(v) => cells(v@),
            Column::Decimal128(v) => cells(v@),
            Column::Decimal256(v) => cells(v@),
        }
    }
}

impl Column {
    /// The column holds its values as the kind does.
    pub open spec fn stored_as(&self, kind: ExactKind) -> bool {
        match (self, kind) {
            (Column::Int64(_), ExactKind::Int64) => true,
            (Column::UInt64(_), ExactKind::UInt64) => true,
            (Column::Decimal128(_), ExactKind::Decimal128(_, _)) => true,
            (Column::Decimal256(_), ExactKind::Decimal256(_, _)) => true,
            _ => false,
        }
    }

    /// The number of rows.
    pub fn len(&self) -> (r: usize)
        ensures
            r == self@.len(),
    {
        match self {
            Column::Int64(v) => v.len(),
            Column::UInt64(v) => v.len(),
            Column::Decimal128(v) => v.len(),
            Column::Decimal256(v) => v.len(),
        }
    }

    /// The number of rows that are not null.
    pub fn non_null_count(&self) -> (r: usize)
        ensures
            r == non_null_count(self@),
    {
        match self {
            Column::Int64(v) => count_non_null(v),
            Column::UInt64(v) => count_non_null(v),
            Column::Decimal128(v) => count_non_null(v),
            Column::Decimal256(v) => count_non_null(v),
        }
    }
}

/// A value of an exact kind.
#[derive(Clone, Copy, Debug, PartialEq, Eq, Structural)]
pub enum NativeValue {
    Int64(i64),
    UInt64(u64),
    /// A decimal in 128 bits, with its precision and its scale.
    Decimal128(i128, u8, i8),
    /// A decimal in 256 bits, with its precision and its scale.
    Decimal256(I256, u8, i8),
}

impl NativeValue {
    /// The kind of the value.
    pub open spec fn spec_kind(self) -> ExactKind {
        match self {
            NativeValue::Int64(_) => ExactKind::Int64,
            NativeValue::UInt64(_) => ExactKind::UInt64,
            NativeValue::Decimal128(_, precision, scale) => ExactKind::Decimal128(precision, scale),
            NativeValue::Decimal256(_, precision, scale) => ExactKind::Decimal256(precision, scale),
        }
    }

    /// The integer that the value stands for. For a decimal it is the
    /// unscaled integer.
    pub open spec fn value(self) -> int {
        match self {
            NativeValue::Int64(v) => v.value(),
            NativeValue::UInt64(v) => v.value(),
            NativeValue::Decimal128(v, _, _) => v.value(),
            NativeValue::Decimal256(v, _, _) => v.value(),
        }
    }

    /// The kind of the value.
    pub fn kind(self) -> (r: ExactKind)
        ensures
            r == self.spec_kind(),
    {
        match self {
            NativeValue::Int64(_) => ExactKind::Int64,
            NativeValue::UInt64(_) => ExactKind::UInt64,
            NativeValue::Decimal128(_, precision, scale) => ExactKind::Decimal128(precision, scale),
            NativeValue::Decimal256(_, precision, scale) => ExactKind::Decimal256(precision, scale),
        }
    }

    /// The zero of a kind.
    pub fn zero(kind: ExactKind) -> (r: NativeValue)
        ensures
            r.spec_kind() == kind,
            r.value() == 0,
    {
        match kind {
            ExactKind::Int64 => NativeValue::Int64(Arithmetic::zero()),
            ExactKind::UInt64 => NativeValue::UInt64(Arithmetic::zero()),
            ExactKind::Decimal128(precision, scale) => NativeValue::Decimal128(
                Arithmetic::zero(),
                precision,
                scale,
            ),
            ExactKind::Decimal256(precision, scale) => NativeValue::Decimal256(
                Arithmetic::zero(),
                precision,
                scale,
            ),
        }
    }

    /// The value lies in the range of its kind.
    pub proof fn lemma_range(self)
        ensures
            self.spec_kind().lowest() <= self.value() < self.spec_kind().lowest()
                + self.spec_kind().modulus(),
    {
        match self {
            NativeValue::Decimal256(v, _, _) => {
                Native::lemma_range(v);
            },
            _ => {},
        }
    }

    /// Two values of one kind that stand for the same integer are the same.
    pub proof fn lemma_value_determines(self, other: NativeValue)
        requires
            self.spec_kind() == other.spec_kind(),
            self.value() == other.value(),
        ensures
            self == other,
    {
        match (self, other) {
            (NativeValue::Decimal256(a, _, _), NativeValue::Decimal256(b, _, _)) => {
                a.lemma_value_injective(b);
            },
            _ => {},
        }
    }
}

/// A value of an exact kind, or the null of that kind.
#[derive(Clone, Copy, Debug, PartialEq, Eq, Structural)]
pub enum ScalarValue {
    Int64(Option<i64>),
    UInt64(Option<u64>),
    /// A decimal in 128 bits, with its precision and its scale.
    Decimal128(Option<i128>, u8, i8),
    /// A decimal in 256 bits, with its precision and its scale.
    Decimal256(Option<I256>, u8, i8),
}

impl ScalarValue {
    /// The kind of the value.
    pub open spec fn spec_kind(self) -> ExactKind {
        match self {
            ScalarValue::Int64(_) => ExactKind::Int64,
            ScalarValue::UInt64(_) => ExactKind::UInt64,
            ScalarValue::Decimal128(_, precision, scale) => ExactKind::Decimal128(precision, scale),
            ScalarValue::Decimal256(_, precision, scale) => ExactKind::Decimal256(precision, scale),
        }
    }

    /// The integer that the value stands for, if it is not null.
    pub open spec fn value(self) -> Option<int> {
        match self {
            ScalarValue::Int64(v) => value_of(v),
            ScalarValue::UInt64(v) => value_of(v),
            ScalarValue::Decimal128(v, _, _) => value_of(v),
            ScalarValue::Decimal256(v, _, _) => value_of(v),
        }
    }

    /// The value is the null of its kind.
    pub open spec fn spec_is_null(self) -> bool {
        self.value() is None
    }

    /// The kind of the value.
    pub fn kind(self) -> (r: ExactKind)
        ensures
            r == self.spec_kind(),
    {
        match self {
            ScalarValue::Int64(_) => ExactKind::Int64,
            ScalarValue::UInt64(_) => ExactKind::UInt64,
            ScalarValue::Decimal128(_, precision, scale) => ExactKind::Decimal128(precision, scale),
            ScalarValue::Decimal256(_, precision, scale) => ExactKind::Decimal256(precision, scale),
        }
    }

    /// Whether the value is null.
    pub fn is_null(self) -> (r: bool)
        ensures
            r == self.spec_is_null(),
    {
        match self {
            ScalarValue::Int64(v) => v.is_none(),
            ScalarValue::UInt64(v) => v.is_none(),
            ScalarValue::Decimal128(v, _, _) => v.is_none(),
            ScalarValue::Decimal256(v, _, _) => v.is_none(),
        }
    }

    /// The null of a kind.
    pub fn null(kind: ExactKind) -> (r: ScalarValue)
        ensures
            r.spec_kind() == kind,
            r.value() is None,
    {
        match kind {
            ExactKind::Int64 => ScalarValue::Int64(None),
            ExactKind::UInt64 => ScalarValue::UInt64(None),
            ExactKind::Decimal128(precision, scale) => ScalarValue::Decimal128(
                None,
                precision,
                scale,
            ),
            ExactKind::Decimal256(precision, scale) => ScalarValue::Decimal256(
                None,
                precision,
                scale,
            ),
        }
    }

    /// A value that is not null.
    pub fn present(value: NativeValue) -> (r: ScalarValue)
        ensures
            r.spec_kind() == value.spec_kind(),
            r.value() == Some(value.value()),
    {
        match value {
            NativeValue::Int64(v) => ScalarValue::Int64(Some(v)),
            NativeValue::UInt64(v) => ScalarValue::UInt64(Some(v)),
            NativeValue::Decimal128(v, precision, scale) => ScalarValue::Decimal128(
                Some(v),
                precision,
                scale,
            ),
            NativeValue::Decimal256(v, precision, scale) => ScalarValue::Decimal256(
                Some(v),
                precision,
                scale,
            ),
        }
    }
}

} // verus!
