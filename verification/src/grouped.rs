//! One running total for each group of a grouped aggregation.

use crate::cells::{folded, lemma_folded_push};
use crate::element_type::ExactKind;
use crate::error::SumError;
use crate::native::{cells, value_of, Arithmetic, Native, I256};
use crate::values::Column;
use vstd::prelude::*;

verus! {

/// The rows of a batch that fall to a group, in their order: `groups` gives
/// the group of each row.
pub open spec fn group_rows(cells: Seq<Option<int>>, groups: Seq<usize>, group: int) -> Seq<
    Option<int>,
>
    decreases cells.len(),
{
    if cells.len() == 0 {
        Seq::empty()
    } else {
        let before = group_rows(cells.drop_last(), groups.drop_last(), group);
        if groups.last() == group {
            before.push(cells.last())
        } else {
            before
        }
    }
}

/// The total of a group in a sequence of totals; null for a group that the
/// sequence does not reach.
pub open spec fn total_of(totals: Seq<Option<int>>, group: int) -> Option<int> {
    if 0 <= group < totals.len() {
        totals[group]
    } else {
        None
    }
}

/// The number of groups after a batch that names `total_num_groups` of them:
/// the number never goes down.
pub open spec fn grown(len: nat, total_num_groups: nat) -> nat {
    if total_num_groups > len {
        total_num_groups
    } else {
        len
    }
}

/// The totals of the groups after a batch: each group's total with the rows
/// of the batch that fall to the group added to it.
pub open spec fn grouped(
    kind: ExactKind,
    totals: Seq<Option<int>>,
    total_num_groups: nat,
    cells: Seq<Option<int>>,
    groups: Seq<usize>,
) -> Seq<Option<int>> {
    Seq::new(
        grown(totals.len(), total_num_groups),
        |group: int| kind.fold(total_of(totals, group), group_rows(cells, groups, group)),
    )
}

/// The totals of the groups, each null until a value has reached it.
spec fn slots<T: Native>(totals: Seq<T>, seen: Seq<bool>) -> Seq<Option<int>> {
    Seq::new(
        totals.len(),
        |group: int|
            if seen[group] {
                Some(totals[group].value())
            } else {
                None
            },
    )
}

/// There is a mark for each total, and a total that no value has reached is
/// zero.
spec fn paired<T: Native>(totals: Seq<T>, seen: Seq<bool>) -> bool {
    &&& totals.len() == seen.len()
    &&& forall|group: int| 0 <= group < totals.len() && !seen[group] ==> totals[group].value() == 0
}

/// Appends groups with a zero total that no value has reached, until there
/// are `total_num_groups` of them.
fn grow<T: Arithmetic>(totals: &mut Vec<T>, seen: &mut Vec<bool>, total_num_groups: usize)
    requires
        paired(old(totals)@, old(seen)@),
    ensures
        paired(final(totals)@, final(seen)@),
        final(totals)@.len() == grown(old(totals)@.len(), total_num_groups as nat),
        forall|group: int|
            0 <= group < final(totals)@.len() ==> slots(final(totals)@, final(seen)@)[group]
                == total_of(slots(old(totals)@, old(seen)@), group),
{
    while totals.len() < total_num_groups
        invariant
            paired(totals@, seen@),
            old(totals)@.len() <= totals@.len(),
            totals@.len() <= grown(old(totals)@.len(), total_num_groups as nat),
            forall|group: int|
                0 <= group < totals@.len() ==> slots(totals@, seen@)[group] == total_of(
                    slots(old(totals)@, old(seen)@),
                    group,
                ),
        decreases total_num_groups - totals.len(),
    {
        totals.push(T::zero());
        seen.push(false);
    }
}

/// Adds each value of a batch to the total of its row's group.
fn accumulate<T: Arithmetic>(
    totals: &mut Vec<T>,
    seen: &mut Vec<bool>,
    values: &Vec<Option<T>>,
    group_indices: &[usize],
)
    requires
        paired(old(totals)@, old(seen)@),
        values@.len() == group_indices@.len(),
        forall|i: int| 0 <= i < group_indices@.len() ==> group_indices@[i] < old(totals)@.len(),
    ensures
        paired(final(totals)@, final(seen)@),
        final(totals)@.len() == old(totals)@.len(),
        forall|group: int|
            0 <= group < final(totals)@.len() ==> slots(final(totals)@, final(seen)@)[group]
                == folded(
                T::lowest(),
                T::modulus(),
                slots(old(totals)@, old(seen)@)[group],
                group_rows(cells(values@), group_indices@, group),
            ),
{
    let ghost before = slots(totals@, seen@);
    let ghost rows = cells(values@);
    let mut i: usize = 0;
    while i < values.len()
        invariant
            i <= values@.len(),
            values@.len() == group_indices@.len(),
            rows == cells(values@),
            before.len() == totals@.len(),
            paired(totals@, seen@),
            forall|k: int| 0 <= k < group_indices@.len() ==> group_indices@[k] < totals@.len(),
            forall|group: int|
                0 <= group < totals@.len() ==> slots(totals@, seen@)[group] == folded(
                    T::lowest(),
                    T::modulus(),
                    before[group],
                    group_rows(rows.take(i as int), group_indices@.take(i as int), group),
                ),
        decreases values@.len() - i,
    {
        let target = group_indices[i];
        let ghost earlier = slots(totals@, seen@);
        proof {
            T::lemma_representation();
            assert(rows.take(i as int + 1).drop_last() =~= rows.take(i as int));
            assert(group_indices@.take(i as int + 1).drop_last() =~= group_indices@.take(
                i as int,
            ));
            lemma_folded_push(
                T::lowest(),
                T::modulus(),
                before[target as int],
                group_rows(rows.take(i as int), group_indices@.take(i as int), target as int),
                rows[i as int],
            );
        }
        match values[i] {
            Some(v) => {
                let total = totals[target].add_wrapping(v);
                totals.set(target, total);
                seen.set(target, true);
            },
            None => {},
        }
        i = i + 1;
        proof {
            assert forall|group: int| 0 <= group < totals@.len() implies slots(
                totals@,
                seen@,
            )[group] == folded(
                T::lowest(),
                T::modulus(),
                before[group],
                group_rows(rows.take(i as int), group_indices@.take(i as int), group),
            ) by {
                if group != target {
                    assert(slots(totals@, seen@)[group] == earlier[group]);
                }
            }
        }
    }
    assert(rows.take(values@.len() as int) =~= rows);
    assert(group_indices@.take(values@.len() as int) =~= group_indices@);
}

/// The totals as a nullable column.
fn snapshot<T: Native>(totals: &Vec<T>, seen: &Vec<bool>) -> (r: Vec<Option<T>>)
    requires
        totals@.len() == seen@.len(),
    ensures
        cells(r@) == slots(totals@, seen@),
{
    let mut column: Vec<Option<T>> = Vec::new();
    let mut i: usize = 0;
    while i < totals.len()
        invariant
            i <= totals@.len(),
            totals@.len() == seen@.len(),
            column@.len() == i,
            forall|group: int|
                0 <= group < i ==> value_of(column@[group]) == slots(totals@, seen@)[group],
        decreases totals@.len() - i,
    {
        if seen[i] {
            column.push(Some(totals[i]));
        } else {
            column.push(None);
        }
        i = i + 1;
    }
    assert(cells(column@) =~= slots(totals@, seen@));
    column
}

/// The totals of the groups, in the representation of the kind.
#[derive(Debug)]
enum Totals {
    Int64(Vec<i64>),
    UInt64(Vec<u64>),
    Decimal128(Vec<i128>, u8, i8),
    Decimal256(Vec<I256>, u8, i8),
}

impl Totals {
    /// The kind of the totals.
    spec fn kind(self) -> ExactKind {
        match self {
            Totals::Int64(_) => ExactKind::Int64,
            Totals::UInt64(_) => ExactKind::UInt64,
            Totals::Decimal128(_, precision, scale) => ExactKind::Decimal128(precision, scale),
            Totals::Decimal256(_, precision, scale) => ExactKind::Decimal256(precision, scale),
        }
    }

    /// The totals of the groups, each null until a value has reached it.
    spec fn slots(self, seen: Seq<bool>) -> Seq<Option<int>> {
        match self {
            Totals::Int64(t) => slots(t@, seen),
            Totals::UInt64(t) => slots(t@, seen),
            Totals::Decimal128(t, _, _) => slots(t@, seen),
            Totals::Decimal256(t, _, _) => slots(t@, seen),
        }
    }

    /// There is a mark for each total, and a total that no value has reached
    /// is zero.
    spec fn paired(self, seen: Seq<bool>) -> bool {
        match self {
            Totals::Int64(t) => paired(t@, seen),
            Totals::UInt64(t) => paired(t@, seen),
            Totals::Decimal128(t, _, _) => paired(t@, seen),
            Totals::Decimal256(t, _, _) => paired(t@, seen),
        }
    }
}

/// Grows the totals to `total_num_groups` groups, then adds each value of a
/// batch to the total of its row's group; nothing of it for a batch of
/// another representation than that of the totals.
fn add_rows(
    totals: &mut Totals,
    seen: &mut Vec<bool>,
    values: &Column,
    group_indices: &[usize],
    total_num_groups: usize,
) -> (r: Result<(), SumError>)
    requires
        old(totals).paired(old(seen)@),
        values@.len() == group_indices@.len(),
        forall|i: int|
            0 <= i < group_indices@.len() ==> group_indices@[i] < grown(
                old(seen)@.len(),
                total_num_groups as nat,
            ),
    ensures
        final(totals).paired(final(seen)@),
        final(totals).kind() == old(totals).kind(),
        values.stored_as(old(totals).kind()) ==> r is Ok && final(totals).slots(final(seen)@)
            == grouped(
            old(totals).kind(),
            old(totals).slots(old(seen)@),
            total_num_groups as nat,
            values@,
            group_indices@,
        ),
        !values.stored_as(old(totals).kind()) ==> r == Err::<(), SumError>(SumError::Internal)
            && final(totals).slots(final(seen)@) == old(totals).slots(old(seen)@),
{
    match (&mut *totals, values) {
        (Totals::Int64(t), Column::Int64(v)) => {
            grow(t, seen, total_num_groups);
            accumulate(t, seen, v, group_indices);
        },
        (Totals::UInt64(t), Column::UInt64(v)) => {
            grow(t, seen, total_num_groups);
            accumulate(t, seen, v, group_indices);
        },
        (Totals::Decimal128(t, _, _), Column::Decimal128(v)) => {
            grow(t, seen, total_num_groups);
            accumulate(t, seen, v, group_indices);
        },
        (Totals::Decimal256(t, _, _), Column::Decimal256(v)) => {
            grow(t, seen, total_num_groups);
            accumulate(t, seen, v, group_indices);
        },
        _ => {
            return Err(SumError::Internal);
        },
    }
    assert(totals.slots(seen@) =~= grouped(
        old(totals).kind(),
        old(totals).slots(old(seen)@),
        total_num_groups as nat,
        values@,
        group_indices@,
    ));
    Ok(())
}

/// Sums the rows of each group. A batch names the group of each of its rows
/// by the group's index; a group's total is null until a value has reached
/// it.
#[derive(Debug)]
pub struct GroupedAccumulator {
    /// The total of each group; zero for a group that no value has reached.
    totals: Totals,
    /// For each group, whether a value has reached it.
    seen: Vec<bool>,
}

impl View for GroupedAccumulator {
    type V = Seq<Option<int>>;

    /// The total of each group, null for a group that no value has reached.
    closed spec fn view(&self) -> Seq<Option<int>> {
        self.totals.slots(self.seen@)
    }
}

impl GroupedAccumulator {
    /// The kind that the accumulator was made for.
    pub closed spec fn spec_kind(&self) -> ExactKind {
        self.totals.kind()
    }

    /// There is a mark for each total, and a total that no value has reached
    /// is zero.
    #[verifier::type_invariant]
    spec fn paired(&self) -> bool {
        self.totals.paired(self.seen@)
    }

    /// An accumulator for a kind, without a group.
    pub fn new(kind: ExactKind) -> (r: Self)
        ensures
            r.spec_kind() == kind,
            r@.len() == 0,
    {
        let totals = match kind {
            ExactKind::Int64 => Totals::Int64(Vec::new()),
            ExactKind::UInt64 => Totals::UInt64(Vec::new()),
            ExactKind::Decimal128(precision, scale) => Totals::Decimal128(
                Vec::new(),
                precision,
                scale,
            ),
            ExactKind::Decimal256(precision, scale) => Totals::Decimal256(
                Vec::new(),
                precision,
                scale,
            ),
        };
        GroupedAccumulator { totals, seen: Vec::new() }
    }

    /// The kind that the accumulator was made for.
    pub fn kind(&self) -> (r: ExactKind)
        ensures
            r == self.spec_kind(),
    {
        match &self.totals {
            Totals::Int64(_) => ExactKind::Int64,
            Totals::UInt64(_) => ExactKind::UInt64,
            Totals::Decimal128(_, precision, scale) => ExactKind::Decimal128(*precision, *scale),
            Totals::Decimal256(_, precision, scale) => ExactKind::Decimal256(*precision, *scale),
        }
    }

    /// The number of groups.
    pub fn len(&self) -> (r: usize)
        ensures
            r == self@.len(),
    {
        proof {
            use_type_invariant(self);
        }
        self.seen.len()
    }

    /// Adds each value of a batch to the total of its row's group, wrapping.
    /// Before that the accumulator grows to `total_num_groups` groups, if it
    /// has fewer; a new group's total is null. A null row changes nothing.
    ///
    /// The batch has a group index for each row, and each index names a
    /// group that the accumulator has once it has grown.
    ///
    /// Fails with `Internal`, and changes nothing, exactly when the batch is
    /// of another representation than the accumulator's kind.
    pub fn update_batch(
        &mut self,
        values: &Column,
        group_indices: &[usize],
        total_num_groups: usize,
    ) -> (r: Result<(), SumError>)
        requires
            values@.len() == group_indices@.len(),
            forall|i: int|
                0 <= i < group_indices@.len() ==> group_indices@[i] < grown(
                    old(self)@.len(),
                    total_num_groups as nat,
                ),
        ensures
            final(self).spec_kind() == old(self).spec_kind(),
            values.stored_as(old(self).spec_kind()) ==> r is Ok && final(self)@ == grouped(
                old(self).spec_kind(),
                old(self)@,
                total_num_groups as nat,
                values@,
                group_indices@,
            ),
            !values.stored_as(old(self).spec_kind()) ==> r == Err::<(), SumError>(
                SumError::Internal,
            ) && final(self)@ == old(self)@,
    {
        proof {
            use_type_invariant(&*self);
        }
        // Totals and marks change one after the other, so they are taken out
        // of the accumulator for the update and put back after it.
        let mut taken = GroupedAccumulator::new(self.kind());
        std::mem::swap(self, &mut taken);
        let GroupedAccumulator { mut totals, mut seen } = taken;
        let r = add_rows(&mut totals, &mut seen, values, group_indices, total_num_groups);
        *self = GroupedAccumulator { totals, seen };
        r
    }

    /// Adds the partial totals of other accumulators to the totals of their
    /// groups: a column of partial totals, with the group of each, is added
    /// as a batch of values is, and a null partial total changes nothing.
    ///
    /// Fails with `Internal`, and changes nothing, exactly when the column is
    /// of another representation than the accumulator's kind.
    pub fn merge_batch(
        &mut self,
        states: &Column,
        group_indices: &[usize],
        total_num_groups: usize,
    ) -> (r: Result<(), SumError>)
        requires
            states@.len() == group_indices@.len(),
            forall|i: int|
                0 <= i < group_indices@.len() ==> group_indices@[i] < grown(
                    old(self)@.len(),
                    total_num_groups as nat,
                ),
        ensures
            final(self).spec_kind() == old(self).spec_kind(),
            states.stored_as(old(self).spec_kind()) ==> r is Ok && final(self)@ == grouped(
                old(self).spec_kind(),
                old(self)@,
                total_num_groups as nat,
                states@,
                group_indices@,
            ),
            !states.stored_as(old(self).spec_kind()) ==> r == Err::<(), SumError>(
                SumError::Internal,
            ) && final(self)@ == old(self)@,
    {
        self.update_batch(states, group_indices, total_num_groups)
    }

    /// The total of each group, null for a group that no value has reached,
    /// as a column of the accumulator's kind. The accumulator keeps its
    /// totals.
    pub fn evaluate(&self) -> (r: Column)
        ensures
            r.stored_as(self.spec_kind()),
            r@ == self@,
    {
        proof {
            use_type_invariant(self);
        }
        match &self.totals {
            Totals::Int64(totals) => Column::Int64(snapshot(totals, &self.seen)),
            Totals::UInt64(totals) => Column::UInt64(snapshot(totals, &self.seen)),
            Totals::Decimal128(totals, _, _) => Column::Decimal128(snapshot(totals, &self.seen)),
            Totals::Decimal256(totals, _, _) => Column::Decimal256(snapshot(totals, &self.seen)),
        }
    }

    /// The partial totals, for a merge into another accumulator: one column,
    /// which is what `evaluate` gives.
    pub fn state(&self) -> (r: Vec<Column>)
        ensures
            r@.len() == 1,
            r@[0].stored_as(self.spec_kind()),
            r@[0]@ == self@,
    {
        let mut fields = Vec::new();
        fields.push(self.evaluate());
        fields
    }
}

} // verus!
