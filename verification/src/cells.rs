//! The mathematical model of a nullable column: a sequence of cells, each
//! empty or holding an integer.

use crate::modular::{lemma_wrap_add, wrap};
use vstd::prelude::*;

verus! {

/// 1 for a cell that holds a value, 0 for an empty one.
pub open spec fn presence(cell: Option<int>) -> nat {
    if cell is Some {
        1
    } else {
        0
    }
}

/// What a cell adds to a total: its value, or nothing.
pub open spec fn contribution(cell: Option<int>) -> int {
    match cell {
        Some(v) => v,
        None => 0,
    }
}

/// The number of cells that hold a value.
pub open spec fn non_null_count(cells: Seq<Option<int>>) -> nat
    decreases cells.len(),
{
    if cells.len() == 0 {
        0
    } else {
        non_null_count(cells.drop_last()) + presence(cells.last())
    }
}

/// The sum, as a mathematical integer, of the values that the cells hold.
pub open spec fn non_null_total(cells: Seq<Option<int>>) -> int
    decreases cells.len(),
{
    if cells.len() == 0 {
        0
    } else {
        non_null_total(cells.drop_last()) + contribution(cells.last())
    }
}

/// The sum that a column has for an accumulator: nothing where no cell holds
/// a value, else the total of the values, wrapped into the range that starts
/// at `lowest` and holds `modulus` integers.
pub open spec fn batch_sum(lowest: int, modulus: int, cells: Seq<Option<int>>) -> Option<int> {
    if non_null_count(cells) == 0 {
        None
    } else {
        Some(wrap(lowest, modulus, non_null_total(cells)))
    }
}

/// A running total after a column has been added to it: as it was where the
/// column holds no value, else the wrapped sum of what it was, zero for none,
/// and the total of the column.
pub open spec fn folded(
    lowest: int,
    modulus: int,
    current: Option<int>,
    cells: Seq<Option<int>>,
) -> Option<int> {
    if non_null_count(cells) == 0 {
        current
    } else {
        Some(wrap(lowest, modulus, contribution(current) + non_null_total(cells)))
    }
}

/// The cell of an optional machine value, read through `value`.
pub open spec fn cell_with<T>(v: Option<T>, value: spec_fn(T) -> int) -> Option<int> {
    match v {
        Some(x) => Some(value(x)),
        None => None,
    }
}

/// The cells of a column of optional machine values, read through `value`.
pub open spec fn cells_with<T>(values: Seq<Option<T>>, value: spec_fn(T) -> int) -> Seq<
    Option<int>,
> {
    Seq::new(values.len(), |i: int| cell_with(values[i], value))
}

/// No cell holds a value.
pub open spec fn all_null(cells: Seq<Option<int>>) -> bool {
    forall|i: int| 0 <= i < cells.len() ==> cells[i] is None
}

/// Count and total of a column with one more cell at its end.
pub proof fn lemma_push(cells: Seq<Option<int>>, cell: Option<int>)
    ensures
        non_null_count(cells.push(cell)) == non_null_count(cells) + presence(cell),
        non_null_total(cells.push(cell)) == non_null_total(cells) + contribution(cell),
{
    assert(cells.push(cell).drop_last() =~= cells);
}

/// Count and total of two columns laid end to end.
pub proof fn lemma_concat(a: Seq<Option<int>>, b: Seq<Option<int>>)
    ensures
        non_null_count(a + b) == non_null_count(a) + non_null_count(b),
        non_null_total(a + b) == non_null_total(a) + non_null_total(b),
    decreases b.len(),
{
    if b.len() == 0 {
        assert(a + b =~= a);
    } else {
        lemma_concat(a, b.drop_last());
        assert((a + b).drop_last() =~= a + b.drop_last());
    }
}

/// The count is zero exactly when every cell is empty, and then the total is
/// zero too.
pub proof fn lemma_count_zero(cells: Seq<Option<int>>)
    ensures
        non_null_count(cells) == 0 <==> all_null(cells),
        non_null_count(cells) == 0 ==> non_null_total(cells) == 0,
    decreases cells.len(),
{
    if cells.len() > 0 {
        let front = cells.drop_last();
        lemma_count_zero(front);
        if all_null(cells) {
            assert forall|i: int| 0 <= i < front.len() implies front[i] is None by {
                assert(front[i] == cells[i]);
            }
        }
        if non_null_count(cells) == 0 {
            assert forall|i: int| 0 <= i < cells.len() implies cells[i] is None by {
                if i < front.len() {
                    assert(front[i] == cells[i]);
                }
            }
        }
    }
}

/// A running total after a column with one more cell at its end: an empty
/// cell changes nothing, a value is added, wrapping, to the total after the
/// column without it.
pub proof fn lemma_folded_push(
    lowest: int,
    modulus: int,
    current: Option<int>,
    cells: Seq<Option<int>>,
    cell: Option<int>,
)
    requires
        modulus > 0,
    ensures
        cell is None ==> folded(lowest, modulus, current, cells.push(cell)) == folded(
            lowest,
            modulus,
            current,
            cells,
        ),
        cell is Some ==> folded(lowest, modulus, current, cells.push(cell)) == Some(
            wrap(
                lowest,
                modulus,
                contribution(folded(lowest, modulus, current, cells)) + cell.unwrap(),
            ),
        ),
{
    lemma_push(cells, cell);
    lemma_count_zero(cells);
    if cell is Some && non_null_count(cells) > 0 {
        lemma_wrap_add(
            lowest,
            modulus,
            contribution(current) + non_null_total(cells),
            cell.unwrap(),
        );
    }
}

} // verus!
