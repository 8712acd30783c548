//! What holds of the accumulators whatever the batches are.

use crate::cells::{
    all_null, lemma_concat, lemma_count_zero, lemma_push, non_null_count, non_null_total,
};
use crate::element_type::ExactKind;
use crate::grouped::{group_rows, grouped, grown, total_of};
use crate::modular::{lemma_wrap_add, lemma_wrap_fixed, lemma_wrap_sub};
use crate::sliding::{SlidingSumAccumulator, Window};
use vstd::prelude::*;

verus! {

/// The representation of a kind is a range around zero.
pub proof fn lemma_kind_range(kind: ExactKind)
    ensures
        kind.modulus() > 0,
        kind.lowest() <= 0 < kind.lowest() + kind.modulus(),
{
}

/// A new accumulator that has taken one batch gives null exactly when every
/// row of the batch is null.
pub proof fn law_null_iff_all_null(kind: ExactKind, batch: Seq<Option<int>>)
    ensures
        kind.fold(None, batch) is None <==> all_null(batch),
{
    lemma_count_zero(batch);
}

/// A total is null after a batch exactly when it was null before and every
/// row of the batch is null; so a total is null exactly as long as no value
/// has reached it.
pub proof fn law_null_until_a_value(
    kind: ExactKind,
    current: Option<int>,
    batch: Seq<Option<int>>,
)
    ensures
        kind.fold(current, batch) is None <==> current is None && all_null(batch),
{
    lemma_count_zero(batch);
}

/// Two batches taken in turn give what the two give as one batch.
pub proof fn law_updates_compose(
    kind: ExactKind,
    current: Option<int>,
    first: Seq<Option<int>>,
    second: Seq<Option<int>>,
)
    ensures
        kind.fold(kind.fold(current, first), second) == kind.fold(current, first + second),
{
    lemma_kind_range(kind);
    lemma_concat(first, second);
    lemma_count_zero(first);
    lemma_count_zero(second);
    lemma_wrap_add(
        kind.lowest(),
        kind.modulus(),
        crate::cells::contribution(current) + non_null_total(first),
        non_null_total(second),
    );
}

/// A batch may be summed in two parts: the partial totals of two new
/// accumulators, one for each part, merged into a third new accumulator, give
/// what one new accumulator gives for the whole batch.
pub proof fn law_merge_of_parts(kind: ExactKind, first: Seq<Option<int>>, second: Seq<Option<int>>)
    ensures
        kind.fold(None, seq![kind.fold(None, first), kind.fold(None, second)]) == kind.fold(
            None,
            first + second,
        ),
{
    let states = seq![kind.fold(None, first), kind.fold(None, second)];
    let a = non_null_total(first);
    let b = non_null_total(second);
    lemma_kind_range(kind);
    lemma_concat(first, second);
    lemma_count_zero(first);
    lemma_count_zero(second);
    assert(states =~= Seq::<Option<int>>::empty().push(kind.fold(None, first)).push(
        kind.fold(None, second),
    ));
    lemma_push(Seq::<Option<int>>::empty(), kind.fold(None, first));
    lemma_push(Seq::<Option<int>>::empty().push(kind.fold(None, first)), kind.fold(None, second));
    lemma_wrap_add(kind.lowest(), kind.modulus(), a, b);
    lemma_wrap_add(kind.lowest(), kind.modulus(), a, kind.wrap(b));
    lemma_wrap_add(kind.lowest(), kind.modulus(), 0, b);
    lemma_wrap_add(kind.lowest(), kind.modulus(), a, 0);
}

/// Rows that have entered a window and leave it at once leave the window as
/// it was: total and count are what they were before.
pub proof fn law_retract_undoes_update(window: Window, batch: Seq<Option<int>>)
    requires
        window.wf(),
    ensures
        window.updated(batch).retracted(batch) == window,
{
    let kind = window.kind;
    lemma_kind_range(kind);
    lemma_wrap_sub(
        kind.lowest(),
        kind.modulus(),
        window.sum + non_null_total(batch),
        non_null_total(batch),
    );
    lemma_wrap_fixed(kind.lowest(), kind.modulus(), window.sum);
}

/// An accumulator that has let the rows of a batch enter and then leave is
/// the accumulator that it was before.
pub proof fn law_retract_restores_the_accumulator(
    before: &SlidingSumAccumulator,
    between: &SlidingSumAccumulator,
    after: &SlidingSumAccumulator,
    batch: Seq<Option<int>>,
)
    requires
        between@ == before@.updated(batch),
        after@ == between@.retracted(batch),
    ensures
        *after == *before,
{
    before.lemma_state_wf();
    law_retract_undoes_update(before@, batch);
    after.lemma_state_determines(before);
}

/// Two batches that enter a window in turn leave it as the two do as one
/// batch.
pub proof fn law_window_updates_compose(
    window: Window,
    first: Seq<Option<int>>,
    second: Seq<Option<int>>,
)
    ensures
        window.updated(first).updated(second) == window.updated(first + second),
{
    let kind = window.kind;
    lemma_kind_range(kind);
    lemma_concat(first, second);
    lemma_wrap_add(
        kind.lowest(),
        kind.modulus(),
        window.sum + non_null_total(first),
        non_null_total(second),
    );
}

/// The count of a window is the number of values that have entered it less
/// the number of those that have left it.
pub proof fn law_window_counts_values(
    window: Window,
    entering: Seq<Option<int>>,
    leaving: Seq<Option<int>>,
)
    requires
        non_null_count(leaving) <= window.count + non_null_count(entering),
    ensures
        window.updated(entering).retracted(leaving).count == window.count + non_null_count(
            entering,
        ) - non_null_count(leaving),
{
}

/// A window may be summed in two parts: the partial states of two new
/// windows, one for each part of a batch, merged into a third new window,
/// leave it as the whole batch leaves a new window.
pub proof fn law_window_merge_of_parts(
    kind: ExactKind,
    first: Seq<Option<int>>,
    second: Seq<Option<int>>,
)
    ensures
        ({
            let empty = Window { kind, sum: 0, count: 0 };
            let one = empty.updated(first);
            let other = empty.updated(second);
            empty.merged(
                seq![one.evaluate(), other.evaluate()],
                seq![Some(one.count as int), Some(other.count as int)],
            ) == empty.updated(first + second)
        }),
{
    let empty = Window { kind, sum: 0, count: 0 };
    let one = empty.updated(first);
    let other = empty.updated(second);
    let sums = seq![one.evaluate(), other.evaluate()];
    let counts = seq![Some(one.count as int), Some(other.count as int)];
    lemma_kind_range(kind);
    lemma_concat(first, second);
    lemma_count_zero(first);
    lemma_count_zero(second);
    assert(sums =~= Seq::<Option<int>>::empty().push(one.evaluate()).push(other.evaluate()));
    lemma_push(Seq::<Option<int>>::empty(), one.evaluate());
    lemma_push(Seq::<Option<int>>::empty().push(one.evaluate()), other.evaluate());
    assert(counts =~= Seq::<Option<int>>::empty().push(Some(one.count as int)).push(
        Some(other.count as int),
    ));
    lemma_push(Seq::<Option<int>>::empty(), Some(one.count as int));
    lemma_push(
        Seq::<Option<int>>::empty().push(Some(one.count as int)),
        Some(other.count as int),
    );
    lemma_wrap_fixed(kind.lowest(), kind.modulus(), 0);
    lemma_wrap_add(kind.lowest(), kind.modulus(), non_null_total(first), non_null_total(second));
    lemma_wrap_add(kind.lowest(), kind.modulus(), non_null_total(first), other.sum);
}

/// A window gives null exactly when it holds no value, whatever its total.
pub proof fn law_window_null_iff_empty(window: Window)
    ensures
        window.evaluate() is None <==> window.count == 0,
{
}

/// The rows of a group in two batches laid end to end are its rows in the
/// first, then its rows in the second.
pub proof fn lemma_group_rows_concat(
    first: Seq<Option<int>>,
    first_groups: Seq<usize>,
    second: Seq<Option<int>>,
    second_groups: Seq<usize>,
    group: int,
)
    requires
        first.len() == first_groups.len(),
        second.len() == second_groups.len(),
    ensures
        group_rows(first + second, first_groups + second_groups, group) == group_rows(
            first,
            first_groups,
            group,
        ) + group_rows(second, second_groups, group),
    decreases second.len(),
{
    if second.len() == 0 {
        assert(first + second =~= first);
        assert(first_groups + second_groups =~= first_groups);
        assert(group_rows(second, second_groups, group) =~= Seq::<Option<int>>::empty());
        assert(group_rows(first, first_groups, group) + Seq::<Option<int>>::empty()
            =~= group_rows(first, first_groups, group));
    } else {
        lemma_group_rows_concat(
            first,
            first_groups,
            second.drop_last(),
            second_groups.drop_last(),
            group,
        );
        assert((first + second).drop_last() =~= first + second.drop_last());
        assert((first_groups + second_groups).drop_last() =~= first_groups
            + second_groups.drop_last());
        let before = group_rows(first, first_groups, group) + group_rows(
            second.drop_last(),
            second_groups.drop_last(),
            group,
        );
        assert(before.push(second.last()) =~= group_rows(first, first_groups, group) + group_rows(
            second.drop_last(),
            second_groups.drop_last(),
            group,
        ).push(second.last()));
    }
}

/// The rows of a group are the rows of the batch that name the group, in
/// their order: the rows, each with its group index, filtered by the index.
pub proof fn lemma_group_rows_are_filtered(
    batch: Seq<Option<int>>,
    group_indices: Seq<usize>,
    group: int,
)
    requires
        batch.len() == group_indices.len(),
    ensures
        group_rows(batch, group_indices, group) == batch.zip_with(group_indices).filter(
            |row: (Option<int>, usize)| row.1 == group,
        ).map_values(|row: (Option<int>, usize)| row.0),
    decreases batch.len(),
{
    let names = |row: (Option<int>, usize)| row.1 == group;
    let value = |row: (Option<int>, usize)| row.0;
    let rows = batch.zip_with(group_indices);
    reveal(Seq::filter);
    if batch.len() == 0 {
        assert(rows.filter(names).map_values(value) =~= Seq::<Option<int>>::empty());
    } else {
        lemma_group_rows_are_filtered(batch.drop_last(), group_indices.drop_last(), group);
        assert(rows.drop_last() =~= batch.drop_last().zip_with(group_indices.drop_last()));
        assert(rows.last() == (batch.last(), group_indices.last()));
        let before = rows.drop_last().filter(names);
        if names(rows.last()) {
            assert(before.push(rows.last()).map_values(value) =~= before.map_values(value).push(
                batch.last(),
            ));
        }
    }
}

/// A new grouped accumulator that has taken one batch holds for each group
/// what a new accumulator for one total gives for the rows of the batch that
/// name the group.
pub proof fn law_group_total_is_scalar_total(
    kind: ExactKind,
    batch: Seq<Option<int>>,
    group_indices: Seq<usize>,
    total_num_groups: nat,
    group: int,
)
    requires
        batch.len() == group_indices.len(),
        0 <= group < total_num_groups,
    ensures
        grouped(kind, Seq::empty(), total_num_groups, batch, group_indices)[group] == kind.fold(
            None,
            batch.zip_with(group_indices).filter(
                |row: (Option<int>, usize)| row.1 == group,
            ).map_values(|row: (Option<int>, usize)| row.0),
        ),
{
    lemma_group_rows_are_filtered(batch, group_indices, group);
}

/// A group that no row of a batch names has no rows in it.
pub proof fn lemma_group_rows_of_no_row(
    batch: Seq<Option<int>>,
    group_indices: Seq<usize>,
    group: int,
)
    requires
        batch.len() == group_indices.len(),
        forall|i: int| 0 <= i < group_indices.len() ==> group_indices[i] != group,
    ensures
        group_rows(batch, group_indices, group) == Seq::<Option<int>>::empty(),
    decreases batch.len(),
{
    if batch.len() > 0 {
        let front = group_indices.drop_last();
        assert(group_indices.last() == group_indices[group_indices.len() - 1]);
        assert forall|i: int| 0 <= i < front.len() implies front[i] != group by {
            assert(front[i] == group_indices[i]);
        }
        lemma_group_rows_of_no_row(batch.drop_last(), front, group);
    }
}

/// Two batches that a grouped accumulator takes in turn give what the two
/// give as one batch, which names as many groups as the larger of the two.
/// Each row of the first batch names a group that the accumulator has when
/// it takes that batch.
pub proof fn law_grouped_updates_compose(
    kind: ExactKind,
    totals: Seq<Option<int>>,
    first: Seq<Option<int>>,
    first_groups: Seq<usize>,
    first_num_groups: nat,
    second: Seq<Option<int>>,
    second_groups: Seq<usize>,
    second_num_groups: nat,
)
    requires
        first.len() == first_groups.len(),
        second.len() == second_groups.len(),
        forall|i: int|
            0 <= i < first_groups.len() ==> first_groups[i] < grown(totals.len(), first_num_groups),
    ensures
        grouped(
            kind,
            grouped(kind, totals, first_num_groups, first, first_groups),
            second_num_groups,
            second,
            second_groups,
        ) == grouped(
            kind,
            totals,
            if first_num_groups > second_num_groups {
                first_num_groups
            } else {
                second_num_groups
            },
            first + second,
            first_groups + second_groups,
        ),
{
    let between = grouped(kind, totals, first_num_groups, first, first_groups);
    let in_turn = grouped(kind, between, second_num_groups, second, second_groups);
    let num_groups = if first_num_groups > second_num_groups {
        first_num_groups
    } else {
        second_num_groups
    };
    let at_once = grouped(kind, totals, num_groups, first + second, first_groups + second_groups);
    assert forall|group: int| 0 <= group < in_turn.len() implies in_turn[group]
        == at_once[group] by {
        lemma_group_rows_concat(first, first_groups, second, second_groups, group);
        law_updates_compose(
            kind,
            total_of(totals, group),
            group_rows(first, first_groups, group),
            group_rows(second, second_groups, group),
        );
        if group >= between.len() {
            lemma_group_rows_of_no_row(first, first_groups, group);
            assert(Seq::<Option<int>>::empty() + group_rows(second, second_groups, group)
                =~= group_rows(second, second_groups, group));
        }
    }
    assert(in_turn =~= at_once);
}

} // verus!
