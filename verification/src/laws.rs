//! What holds of the operations together.
//!
//! The contracts say of each operation what it does to the sequence of records.
//! The laws below say what follows for operations that come one after the
//! other. Each is stated over the sequences and spec functions that the
//! contracts use.
use crate::growth::{grown_capacity, lemma_power_of_two_at_least, power_of_two_at_least};
use crate::param::ParallelParam;
use crate::iter::Iter;
use crate::permute::{is_order, selected};
use crate::slice::{ParallelSlice, ParallelSliceIndex};
use core::ops::RangeFull;
use crate::vec::ParallelVec;
use vstd::prelude::*;

verus! {

/// What a container holds after the records of `values` were pushed onto `rows`
/// one by one.
pub open spec fn after_pushes<A>(rows: Seq<A>, values: Seq<A>) -> Seq<A>
    decreases values.len(),
{
    if values.len() == 0 {
        rows
    } else {
        after_pushes(rows, values.drop_last()).push(values.last())
    }
}

/// What a container holds after `count` records were popped off `rows`.
pub open spec fn after_pops<A>(rows: Seq<A>, count: nat) -> Seq<A>
    decreases count,
{
    if count == 0 {
        rows
    } else {
        after_pops(rows, (count - 1) as nat).drop_last()
    }
}

/// Pushes keep their order: a container that was empty holds the records that
/// were pushed onto it, first pushed first, and `rows` keeps what it held in
/// front of them.
pub proof fn lemma_pushes_keep_order<A>(rows: Seq<A>, values: Seq<A>)
    ensures
        after_pushes(rows, values) == rows + values,
        after_pushes(Seq::<A>::empty(), values) == values,
    decreases values.len(),
{
    if values.len() > 0 {
        lemma_pushes_keep_order(rows, values.drop_last());
        lemma_pushes_keep_order(Seq::<A>::empty(), values.drop_last());
        assert(rows + values =~= (rows + values.drop_last()).push(values.last()));
        assert(values =~= values.drop_last().push(values.last()));
    } else {
        assert(rows + values =~= rows);
    }
}

/// Pops give the records back last pushed first: after `count` pops `rows`
/// holds its first `rows.len() - count` records, the next pop gives the record
/// that comes `count` places from the end, and after as many pops as there are
/// records none is left.
pub proof fn lemma_pops_reverse_pushes<A>(rows: Seq<A>, count: nat)
    requires
        count <= rows.len(),
    ensures
        after_pops(rows, count) == rows.take(rows.len() - count),
        count < rows.len() ==> after_pops(rows, count).last() == rows.reverse()[count as int],
        after_pops(rows, rows.len()).len() == 0,
    decreases rows.len() - count,
{
    lemma_pops_take(rows, count);
    lemma_pops_take(rows, rows.len());
}

proof fn lemma_pops_take<A>(rows: Seq<A>, count: nat)
    requires
        count <= rows.len(),
    ensures
        after_pops(rows, count) == rows.take(rows.len() - count),
    decreases count,
{
    if count > 0 {
        lemma_pops_take(rows, (count - 1) as nat);
        assert(rows.take(rows.len() - count + 1).drop_last() =~= rows.take(rows.len() - count));
    } else {
        assert(rows.take(rows.len() as int) =~= rows);
    }
}

/// An inserted record lies at the position it was inserted at; the records
/// before it stay where they were and the records from there on lie one
/// position higher.
pub proof fn lemma_insert_shifts<A>(rows: Seq<A>, index: int, value: A)
    requires
        0 <= index <= rows.len(),
    ensures
        rows.insert(index, value).len() == rows.len() + 1,
        rows.insert(index, value)[index] == value,
        forall|j: int| 0 <= j < index ==> rows.insert(index, value)[j] == rows[j],
        forall|j: int| index <= j < rows.len() ==> rows.insert(index, value)[j + 1] == rows[j],
{
}

/// To remove at the position of an insertion undoes the insertion.
pub proof fn lemma_remove_undoes_insert<A>(rows: Seq<A>, index: int, value: A)
    requires
        0 <= index <= rows.len(),
    ensures
        rows.insert(index, value).remove(index) == rows,
{
    assert(rows.insert(index, value).remove(index) =~= rows);
}

/// To remove at the position of an insertion undoes the insertion in a
/// container that did not have to grow for it: records and capacity are as
/// before.
pub proof fn lemma_remove_undoes_insert_in_place<Param: ParallelParam>(
    vec: ParallelVec<Param>,
    index: int,
    value: Param,
)
    requires
        vec.wf(),
        0 <= index <= vec@.len(),
        vec@.len() < vec.spec_capacity(),
    ensures
        vec@.insert(index, value).remove(index) == vec@,
        vec.reserved_capacity(1) == vec.spec_capacity(),
{
    lemma_remove_undoes_insert(vec@, index, value);
}

/// What `swap_remove` leaves: one record less, the record that was last at the
/// position of the record taken, unless that was the last, and every other
/// record where it was.
pub proof fn lemma_swap_remove<A>(rows: Seq<A>, index: int)
    requires
        0 <= index < rows.len(),
    ensures
        rows.update(index, rows.last()).drop_last().len() == rows.len() - 1,
        index < rows.len() - 1 ==> rows.update(index, rows.last()).drop_last()[index]
            == rows.last(),
        forall|j: int|
            0 <= j < rows.len() - 1 && j != index ==> rows.update(index, rows.last()).drop_last()[j]
                == rows[j],
{
}

/// Growth is fixed: a container that has reserved no memory and is asked to
/// make room for `additional` records, at least one, has room for the smallest
/// power of two that is at least `additional`, and for no less than four.
pub proof fn lemma_reserve_from_new<Param: ParallelParam>(vec: ParallelVec<Param>, additional: usize)
    requires
        vec.wf(),
        vec@.len() == 0,
        vec.spec_capacity() == 0,
        additional > 0,
    ensures
        vec.reserved_capacity(additional as nat) == grown_capacity(additional as nat),
        grown_capacity(additional as nat) == if power_of_two_at_least(additional as nat) > 4 {
            power_of_two_at_least(additional as nat)
        } else {
            4
        },
        grown_capacity(additional as nat) >= additional,
{
    lemma_power_of_two_at_least(additional as nat);
}

/// The records that an order selects are a rearrangement of the records: the
/// order can be undone.
pub proof fn lemma_selected_is_rearrangement<A>(rows: Seq<A>, order: Seq<usize>)
    requires
        is_order(order),
        order.len() == rows.len() <= usize::MAX,
    ensures
        selected(rows, order).len() == rows.len(),
        exists|back: Seq<usize>|
            #![trigger selected(selected(rows, order), back)]
            is_order(back) && back.len() == rows.len() && selected(selected(rows, order), back)
                == rows,
{
    crate::permute::lemma_order_is_onto(order);
    let back = Seq::new(
        rows.len(),
        |p: int| (choose|k: int| 0 <= k < order.len() && #[trigger] order[k] == p) as usize,
    );
    assert forall|p: int| 0 <= p < rows.len() implies order[back[p] as int] == p && back[p]
        < rows.len() by {
        assert(crate::permute::holds_position(order, p));
        let k = choose|k: int| 0 <= k < order.len() && #[trigger] order[k] == p;
        assert(back[p] == k);
    }
    assert(is_order(back)) by {
        assert forall|i: int, j: int|
            0 <= i < back.len() && 0 <= j < back.len() && i != j implies back[i] != back[j] by {
            assert(order[back[i] as int] == i);
            assert(order[back[j] as int] == j);
        }
    }
    assert(selected(selected(rows, order), back) =~= rows);
}

/// A range selects as many records as lie between its bounds.
pub proof fn lemma_range_len<A>(rows: Seq<A>, start: int, end: int)
    requires
        0 <= start <= end <= rows.len(),
    ensures
        rows.subrange(start, end).len() == end - start,
        rows.subrange(0, rows.len() as int) == rows,
{
    assert(rows.subrange(0, rows.len() as int) =~= rows);
}

/// The full range covers what an iterator walks: the view that `..` selects from
/// a view holds the records that an iterator over that view has yet to hand
/// out when it starts.
pub proof fn lemma_full_range_covers_iteration<Param: ParallelParam>(
    slice: ParallelSlice<'_, Param>,
    selected: ParallelSlice<'_, Param>,
    iter: Iter<'_, Param>,
)
    requires
        <RangeFull as ParallelSliceIndex<Param>>::selects(RangeFull, slice@, selected),
        iter@ == slice@,
    ensures
        <RangeFull as ParallelSliceIndex<Param>>::in_bounds(RangeFull, slice@.len()),
        selected@ == iter@,
{
}

} // verus!
