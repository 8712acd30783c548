//! The four machine representations that a sum runs over, and what each of
//! them offers to an accumulator: a zero, a wrapping sum and difference of two
//! values, and the wrapping sum of a nullable column.

use crate::cells::{
    batch_sum, cell_with, cells_with, folded, lemma_count_zero, lemma_push, non_null_count,
    non_null_total,
};
use crate::modular::{lemma_wrap_add, lemma_wrap_fixed, lemma_wrap_sub, wrap};
use crate::outside::{
    add_wrapping_i128, add_wrapping_i256, add_wrapping_i64, add_wrapping_u64, sub_wrapping_i128,
    sub_wrapping_i256, sub_wrapping_i64, sub_wrapping_u64, sum_i128, sum_i256, sum_i64, sum_u64,
};
use vstd::prelude::*;

verus! {

/// A signed 256-bit integer in two's complement, by its two halves.
#[derive(Clone, Copy, Debug, PartialEq, Eq, Structural)]
pub struct I256 {
    /// The low 128 bits.
    pub low: u128,
    /// The high 128 bits, which carry the sign.
    pub high: i128,
}

impl I256 {
    /// The integer that the two halves stand for.
    pub open spec fn as_int(self) -> int {
        self.high * (u128::MAX + 1) + self.low
    }

    /// The smallest integer that 256 bits hold in two's complement: -2^255.
    pub open spec fn lowest_int() -> int {
        -0x8000_0000_0000_0000_0000_0000_0000_0000_0000_0000_0000_0000_0000_0000_0000_0000int
    }

    /// The number of integers that 256 bits hold: 2^256.
    pub open spec fn modulus_int() -> int {
        0x1_0000_0000_0000_0000_0000_0000_0000_0000_0000_0000_0000_0000_0000_0000_0000_0000int
    }
}

/// A machine representation of integers with wrapping arithmetic.
pub trait Native: Copy + Sized {
    /// The integer that the value stands for.
    spec fn value(self) -> int;

    /// The smallest integer of the representation.
    spec fn lowest() -> int;

    /// The number of integers of the representation.
    spec fn modulus() -> int;

    /// The representation is a range around zero.
    proof fn lemma_representation()
        ensures
            Self::modulus() > 0,
            Self::lowest() <= 0 < Self::lowest() + Self::modulus(),
    ;

    /// Every value lies in the range.
    proof fn lemma_range(self)
        ensures
            Self::lowest() <= self.value() < Self::lowest() + Self::modulus(),
    ;

    /// Two values that stand for the same integer are the same value.
    proof fn lemma_value_injective(self, other: Self)
        requires
            self.value() == other.value(),
        ensures
            self == other,
    ;
}

/// The arithmetic of a machine representation.
pub(crate) trait Arithmetic: Native {
    /// The value zero.
    fn zero() -> (r: Self)
        ensures
            r.value() == 0,
    ;

    /// The sum of two values, wrapped.
    fn add_wrapping(self, rhs: Self) -> (r: Self)
        ensures
            r.value() == wrap(Self::lowest(), Self::modulus(), self.value() + rhs.value()),
    ;

    /// The difference of two values, wrapped.
    fn sub_wrapping(self, rhs: Self) -> (r: Self)
        ensures
            r.value() == wrap(Self::lowest(), Self::modulus(), self.value() - rhs.value()),
    ;

    /// The wrapped sum of the values of a column, if it has any.
    fn sum(values: &Vec<Option<Self>>) -> (r: Option<Self>)
        ensures
            cell_with(r, |x: Self| x.value()) == batch_sum(
                Self::lowest(),
                Self::modulus(),
                cells_with(values@, |x: Self| x.value()),
            ),
    ;
}

/// The integer of an optional value.
pub open spec fn value_of<T: Native>(v: Option<T>) -> Option<int> {
    cell_with(v, |x: T| x.value())
}

/// The cells of a column of optional values.
pub open spec fn cells<T: Native>(values: Seq<Option<T>>) -> Seq<Option<int>> {
    cells_with(values, |x: T| x.value())
}

impl Native for i64 {
    open spec fn value(self) -> int {
        self as int
    }

    open spec fn lowest() -> int {
        i64::MIN as int
    }

    open spec fn modulus() -> int {
        u64::MAX + 1
    }

    proof fn lemma_representation() {
    }

    proof fn lemma_range(self) {
    }

    proof fn lemma_value_injective(self, other: Self) {
    }
}

impl Arithmetic for i64 {
    fn zero() -> (r: Self) {
        0
    }

    fn add_wrapping(self, rhs: Self) -> (r: Self) {
        add_wrapping_i64(self, rhs)
    }

    fn sub_wrapping(self, rhs: Self) -> (r: Self) {
        sub_wrapping_i64(self, rhs)
    }

    fn sum(values: &Vec<Option<Self>>) -> (r: Option<Self>) {
        let r = sum_i64(values);
        assert(cells_with(values@, |x: Self| x.value()) =~= cells_with(
            values@,
            |x: Self| x as int,
        ));
        r
    }
}

impl Native for u64 {
    open spec fn value(self) -> int {
        self as int
    }

    open spec fn lowest() -> int {
        0
    }

    open spec fn modulus() -> int {
        u64::MAX + 1
    }

    proof fn lemma_representation() {
    }

    proof fn lemma_range(self) {
    }

    proof fn lemma_value_injective(self, other: Self) {
    }
}

impl Arithmetic for u64 {
    fn zero() -> (r: Self) {
        0
    }

    fn add_wrapping(self, rhs: Self) -> (r: Self) {
        add_wrapping_u64(self, rhs)
    }

    fn sub_wrapping(self, rhs: Self) -> (r: Self) {
        sub_wrapping_u64(self, rhs)
    }

    fn sum(values: &Vec<Option<Self>>) -> (r: Option<Self>) {
        let r = sum_u64(values);
        assert(cells_with(values@, |x: Self| x.value()) =~= cells_with(
            values@,
            |x: Self| x as int,
        ));
        r
    }
}

impl Native for i128 {
    open spec fn value(self) -> int {
        self as int
    }

    open spec fn lowest() -> int {
        i128::MIN as int
    }

    open spec fn modulus() -> int {
        u128::MAX + 1
    }

    proof fn lemma_representation() {
    }

    proof fn lemma_range(self) {
    }

    proof fn lemma_value_injective(self, other: Self) {
    }
}

impl Arithmetic for i128 {
    fn zero() -> (r: Self) {
        0
    }

    fn add_wrapping(self, rhs: Self) -> (r: Self) {
        add_wrapping_i128(self, rhs)
    }

    fn sub_wrapping(self, rhs: Self) -> (r: Self) {
        sub_wrapping_i128(self, rhs)
    }

    fn sum(values: &Vec<Option<Self>>) -> (r: Option<Self>) {
        let r = sum_i128(values);
        assert(cells_with(values@, |x: Self| x.value()) =~= cells_with(
            values@,
            |x: Self| x as int,
        ));
        r
    }
}

impl Native for I256 {
    open spec fn value(self) -> int {
        self.as_int()
    }

    open spec fn lowest() -> int {
        I256::lowest_int()
    }

    open spec fn modulus() -> int {
        I256::modulus_int()
    }

    proof fn lemma_representation() {
    }

    proof fn lemma_range(self) {
    }

    proof fn lemma_value_injective(self, other: Self) {
    }
}

impl Arithmetic for I256 {
    fn zero() -> (r: Self) {
        I256 { low: 0, high: 0 }
    }

    fn add_wrapping(self, rhs: Self) -> (r: Self) {
        add_wrapping_i256(self, rhs)
    }

    fn sub_wrapping(self, rhs: Self) -> (r: Self) {
        sub_wrapping_i256(self, rhs)
    }

    fn sum(values: &Vec<Option<Self>>) -> (r: Option<Self>) {
        let r = sum_i256(values);
        assert(cells_with(values@, |x: Self| x.value()) =~= cells_with(
            values@,
            |x: Self| x.as_int(),
        ));
        r
    }
}

/// Adds a column to a running total that is null until a value has reached
/// it.
pub(crate) fn fold_batch<T: Arithmetic>(current: Option<T>, values: &Vec<Option<T>>) -> (r: Option<
    T,
>)
    ensures
        value_of(r) == folded(T::lowest(), T::modulus(), value_of(current), cells(values@)),
{
    assert(cells_with(values@, |x: T| x.value()) =~= cells(values@));
    match T::sum(values) {
        Some(x) => {
            let v = match current {
                Some(c) => c,
                None => T::zero(),
            };
            proof {
                T::lemma_representation();
                lemma_wrap_add(
                    T::lowest(),
                    T::modulus(),
                    v.value(),
                    non_null_total(cells(values@)),
                );
            }
            Some(v.add_wrapping(x))
        },
        None => current,
    }
}

/// Adds a column to a running total.
pub(crate) fn add_batch<T: Arithmetic>(total: T, values: &Vec<Option<T>>) -> (r: T)
    ensures
        r.value() == wrap(
            T::lowest(),
            T::modulus(),
            total.value() + non_null_total(cells(values@)),
        ),
{
    assert(cells_with(values@, |x: T| x.value()) =~= cells(values@));
    proof {
        T::lemma_representation();
        total.lemma_range();
    }
    match T::sum(values) {
        Some(x) => {
            proof {
                lemma_wrap_add(
                    T::lowest(),
                    T::modulus(),
                    total.value(),
                    non_null_total(cells(values@)),
                );
            }
            total.add_wrapping(x)
        },
        None => {
            proof {
                lemma_count_zero(cells(values@));
                lemma_wrap_fixed(T::lowest(), T::modulus(), total.value());
            }
            total
        },
    }
}

/// Takes a column away from a running total.
pub(crate) fn sub_batch<T: Arithmetic>(total: T, values: &Vec<Option<T>>) -> (r: T)
    ensures
        r.value() == wrap(
            T::lowest(),
            T::modulus(),
            total.value() - non_null_total(cells(values@)),
        ),
{
    assert(cells_with(values@, |x: T| x.value()) =~= cells(values@));
    proof {
        T::lemma_representation();
        total.lemma_range();
    }
    match T::sum(values) {
        Some(x) => {
            proof {
                lemma_wrap_sub(
                    T::lowest(),
                    T::modulus(),
                    total.value(),
                    non_null_total(cells(values@)),
                );
            }
            total.sub_wrapping(x)
        },
        None => {
            proof {
                lemma_count_zero(cells(values@));
                lemma_wrap_fixed(T::lowest(), T::modulus(), total.value());
            }
            total
        },
    }
}

/// The number of rows of a column that hold a value.
pub(crate) fn count_non_null<T: Native>(values: &Vec<Option<T>>) -> (r: usize)
    ensures
        r == non_null_count(cells(values@)),
{
    let mut count: usize = 0;
    let mut i: usize = 0;
    while i < values.len()
        invariant
            i <= values.len(),
            count <= i,
            count == non_null_count(cells(values@.take(i as int))),
        decreases values.len() - i,
    {
        proof {
            lemma_push(cells(values@.take(i as int)), value_of(values@[i as int]));
            assert(cells(values@.take(i as int + 1)) =~= cells(values@.take(i as int)).push(
                value_of(values@[i as int]),
            ));
        }
        if values[i].is_some() {
            count = count + 1;
        }
        i = i + 1;
    }
    assert(values@.take(values.len() as int) =~= values@);
    count
}

} // verus!
