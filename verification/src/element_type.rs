//! Element types, the numeric kinds among them, and the type that a sum over
//! a column of a given element type has.

use crate::error::SumError;
use crate::outside::{decimal128_max_precision, decimal256_max_precision};
use vstd::prelude::*;

verus! {

/// The type of the elements of a column, as far as a sum tells types apart.
#[derive(Debug, PartialEq, Eq)]
pub enum ElementType {
    Int8,
    Int16,
    Int32,
    Int64,
    UInt8,
    UInt16,
    UInt32,
    UInt64,
    Float16,
    Float32,
    Float64,
    /// A decimal in 128 bits, with its precision and its scale.
    Decimal128(u8, i8),
    /// A decimal in 256 bits, with its precision and its scale.
    Decimal256(u8, i8),
    /// A dictionary, with the type of its keys and the type of its values.
    Dictionary(Box<ElementType>, Box<ElementType>),
    /// Any other type: none that can be summed.
    Other,
}

impl Clone for ElementType {
    fn clone(&self) -> (r: Self)
        ensures
            r == *self,
        decreases self,
    {
        match self {
            ElementType::Int8 => ElementType::Int8,
            ElementType::Int16 => ElementType::Int16,
            ElementType::Int32 => ElementType::Int32,
            ElementType::Int64 => ElementType::Int64,
            ElementType::UInt8 => ElementType::UInt8,
            ElementType::UInt16 => ElementType::UInt16,
            ElementType::UInt32 => ElementType::UInt32,
            ElementType::UInt64 => ElementType::UInt64,
            ElementType::Float16 => ElementType::Float16,
            ElementType::Float32 => ElementType::Float32,
            ElementType::Float64 => ElementType::Float64,
            ElementType::Decimal128(precision, scale) => ElementType::Decimal128(
                *precision,
                *scale,
            ),
            ElementType::Decimal256(precision, scale) => ElementType::Decimal256(
                *precision,
                *scale,
            ),
            ElementType::Dictionary(keys, values) => {
                let keys: &ElementType = keys;
                let values: &ElementType = values;
                ElementType::Dictionary(Box::new(keys.clone()), Box::new(values.clone()))
            },
            ElementType::Other => ElementType::Other,
        }
    }
}

/// A kind of element that a sum runs over.
#[derive(Clone, Copy, Debug, PartialEq, Eq, Structural)]
pub enum NumericKind {
    Int64,
    UInt64,
    Float64,
    /// A decimal in 128 bits, with its precision and its scale.
    Decimal128(u8, i8),
    /// A decimal in 256 bits, with its precision and its scale.
    Decimal256(u8, i8),
}

/// A numeric kind whose sum is integer arithmetic: every kind but the
/// floating one.
#[derive(Clone, Copy, Debug, PartialEq, Eq, Structural)]
pub enum ExactKind {
    Int64,
    UInt64,
    /// A decimal in 128 bits, with its precision and its scale.
    Decimal128(u8, i8),
    /// A decimal in 256 bits, with its precision and its scale.
    Decimal256(u8, i8),
}

/// By how much the precision of a decimal grows when it is summed.
pub const PRECISION_GROWTH: u8 = 10;

/// The largest precision of a decimal in 128 bits.
pub open spec fn max_precision_128() -> u8 {
    38
}

/// The largest precision of a decimal in 256 bits.
pub open spec fn max_precision_256() -> u8 {
    76
}

/// The precision of the sum of decimals of a given precision: ten digits
/// more, as far as the width has room for them.
pub open spec fn widened(precision: u8, max: u8) -> u8 {
    if precision + PRECISION_GROWTH <= max {
        (precision + PRECISION_GROWTH) as u8
    } else {
        max
    }
}

/// The type of the sum over a column of the given element type, if it can be
/// summed. A dictionary is summed as its values are.
pub open spec fn spec_return_type(data_type: ElementType) -> Option<ElementType>
    decreases data_type,
{
    match data_type {
        ElementType::Dictionary(_, values) => spec_return_type(*values),
        ElementType::Decimal128(precision, scale) => Some(
            ElementType::Decimal128(widened(precision, max_precision_128()), scale),
        ),
        ElementType::Decimal256(precision, scale) => Some(
            ElementType::Decimal256(widened(precision, max_precision_256()), scale),
        ),
        ElementType::Int8 | ElementType::Int16 | ElementType::Int32 | ElementType::Int64 => Some(
            ElementType::Int64,
        ),
        ElementType::UInt8
        | ElementType::UInt16
        | ElementType::UInt32
        | ElementType::UInt64 => Some(ElementType::UInt64),
        ElementType::Float16 | ElementType::Float32 | ElementType::Float64 => Some(
            ElementType::Float64,
        ),
        ElementType::Other => None,
    }
}

/// `min(max, precision + 10)`, computed without overflow.
fn widen(precision: u8, max: u8) -> (r: u8)
    ensures
        r == widened(precision, max),
{
    if precision <= max && max - precision >= PRECISION_GROWTH {
        precision + PRECISION_GROWTH
    } else {
        max
    }
}

/// The type of the sum over a column of the given element type.
///
/// Fails with `NotSupported` exactly on a type that is neither an integer,
/// a float or a decimal, nor a dictionary of such values.
pub fn return_type(data_type: &ElementType) -> (r: Result<ElementType, SumError>)
    ensures
        match spec_return_type(*data_type) {
            Some(t) => r == Ok::<ElementType, SumError>(t),
            None => r == Err::<ElementType, SumError>(SumError::NotSupported),
        },
    decreases data_type,
{
    match data_type {
        ElementType::Dictionary(_, values) => return_type(values),
        ElementType::Decimal128(precision, scale) => Ok(
            ElementType::Decimal128(widen(*precision, decimal128_max_precision()), *scale),
        ),
        ElementType::Decimal256(precision, scale) => Ok(
            ElementType::Decimal256(widen(*precision, decimal256_max_precision()), *scale),
        ),
        ElementType::Int8 | ElementType::Int16 | ElementType::Int32 | ElementType::Int64 => Ok(
            ElementType::Int64,
        ),
        ElementType::UInt8
        | ElementType::UInt16
        | ElementType::UInt32
        | ElementType::UInt64 => Ok(ElementType::UInt64),
        ElementType::Float16 | ElementType::Float32 | ElementType::Float64 => Ok(
            ElementType::Float64,
        ),
        ElementType::Other => Err(SumError::NotSupported),
    }
}

impl NumericKind {
    /// The kind that an accumulator is built for when its sum has the given
    /// type: one of the five types that sums have, and no other.
    pub open spec fn spec_of(data_type: ElementType) -> Option<NumericKind> {
        match data_type {
            ElementType::UInt64 => Some(NumericKind::UInt64),
            ElementType::Int64 => Some(NumericKind::Int64),
            ElementType::Float64 => Some(NumericKind::Float64),
            ElementType::Decimal128(precision, scale) => Some(
                NumericKind::Decimal128(precision, scale),
            ),
            ElementType::Decimal256(precision, scale) => Some(
                NumericKind::Decimal256(precision, scale),
            ),
            _ => None,
        }
    }

    /// Picks the kind for the type of a sum.
    ///
    /// Fails with `NotSupported` exactly on a type that no sum has.
    pub fn of(data_type: &ElementType) -> (r: Result<NumericKind, SumError>)
        ensures
            match Self::spec_of(*data_type) {
                Some(kind) => r == Ok::<NumericKind, SumError>(kind),
                None => r == Err::<NumericKind, SumError>(SumError::NotSupported),
            },
    {
        match data_type {
            ElementType::UInt64 => Ok(NumericKind::UInt64),
            ElementType::Int64 => Ok(NumericKind::Int64),
            ElementType::Float64 => Ok(NumericKind::Float64),
            ElementType::Decimal128(precision, scale) => Ok(
                NumericKind::Decimal128(*precision, *scale),
            ),
            ElementType::Decimal256(precision, scale) => Ok(
                NumericKind::Decimal256(*precision, *scale),
            ),
            _ => Err(SumError::NotSupported),
        }
    }

    /// The kind as an exact one, unless it is the floating kind.
    pub open spec fn spec_exact(self) -> Option<ExactKind> {
        match self {
            NumericKind::Int64 => Some(ExactKind::Int64),
            NumericKind::UInt64 => Some(ExactKind::UInt64),
            NumericKind::Float64 => None,
            NumericKind::Decimal128(precision, scale) => Some(
                ExactKind::Decimal128(precision, scale),
            ),
            NumericKind::Decimal256(precision, scale) => Some(
                ExactKind::Decimal256(precision, scale),
            ),
        }
    }

    /// The kind as an exact one, unless it is the floating kind.
    pub fn exact(self) -> (r: Option<ExactKind>)
        ensures
            r == self.spec_exact(),
    {
        match self {
            NumericKind::Int64 => Some(ExactKind::Int64),
            NumericKind::UInt64 => Some(ExactKind::UInt64),
            NumericKind::Float64 => None,
            NumericKind::Decimal128(precision, scale) => Some(
                ExactKind::Decimal128(precision, scale),
            ),
            NumericKind::Decimal256(precision, scale) => Some(
                ExactKind::Decimal256(precision, scale),
            ),
        }
    }

    /// The element type of the kind.
    pub open spec fn spec_element_type(self) -> ElementType {
        match self {
            NumericKind::Int64 => ElementType::Int64,
            NumericKind::UInt64 => ElementType::UInt64,
            NumericKind::Float64 => ElementType::Float64,
            NumericKind::Decimal128(precision, scale) => ElementType::Decimal128(precision, scale),
            NumericKind::Decimal256(precision, scale) => ElementType::Decimal256(precision, scale),
        }
    }

    /// The element type of the kind.
    pub fn element_type(self) -> (r: ElementType)
        ensures
            r == self.spec_element_type(),
    {
        match self {
            NumericKind::Int64 => ElementType::Int64,
            NumericKind::UInt64 => ElementType::UInt64,
            NumericKind::Float64 => ElementType::Float64,
            NumericKind::Decimal128(precision, scale) => ElementType::Decimal128(precision, scale),
            NumericKind::Decimal256(precision, scale) => ElementType::Decimal256(precision, scale),
        }
    }
}

impl ExactKind {
    /// The smallest integer of the kind's representation.
    pub open spec fn lowest(self) -> int {
        match self {
            ExactKind::Int64 => i64::MIN as int,
            ExactKind::UInt64 => 0,
            ExactKind::Decimal128(_, _) => i128::MIN as int,
            ExactKind::Decimal256(_, _) => crate::native::I256::lowest_int(),
        }
    }

    /// The number of integers of the kind's representation.
    pub open spec fn modulus(self) -> int {
        match self {
            ExactKind::Int64 => u64::MAX + 1,
            ExactKind::UInt64 => u64::MAX + 1,
            ExactKind::Decimal128(_, _) => u128::MAX + 1,
            ExactKind::Decimal256(_, _) => crate::native::I256::modulus_int(),
        }
    }

    /// The integer wrapped into the kind's representation.
    pub open spec fn wrap(self, x: int) -> int {
        crate::modular::wrap(self.lowest(), self.modulus(), x)
    }

    /// A running total of the kind after a column has been added to it: as
    /// it was where the column holds no value, which keeps a null total null,
    /// else the wrapped sum of what it was and the total of the column.
    pub open spec fn fold(self, current: Option<int>, cells: Seq<Option<int>>) -> Option<int> {
        crate::cells::folded(self.lowest(), self.modulus(), current, cells)
    }

    /// The kind among all numeric kinds.
    pub open spec fn spec_numeric(self) -> NumericKind {
        match self {
            ExactKind::Int64 => NumericKind::Int64,
            ExactKind::UInt64 => NumericKind::UInt64,
            ExactKind::Decimal128(precision, scale) => NumericKind::Decimal128(precision, scale),
            ExactKind::Decimal256(precision, scale) => NumericKind::Decimal256(precision, scale),
        }
    }

    /// The kind among all numeric kinds.
    pub fn numeric(self) -> (r: NumericKind)
        ensures
            r == self.spec_numeric(),
    {
        match self {
            ExactKind::Int64 => NumericKind::Int64,
            ExactKind::UInt64 => NumericKind::UInt64,
            ExactKind::Decimal128(precision, scale) => NumericKind::Decimal128(precision, scale),
            ExactKind::Decimal256(precision, scale) => NumericKind::Decimal256(precision, scale),
        }
    }
}

} // verus!
