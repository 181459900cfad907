//! Operations on a single column, and what is taken on trust about the standard
//! library's slices where `vstd` is silent.
use std::collections::VecDeque;
use vstd::prelude::*;
use vstd::slice::slice_subrange;

verus! {

/// The slice method `swap` of the standard library: it exchanges the values at
/// `a` and `b` and leaves every other value where it is; with `a == b` nothing
/// changes. It panics where an index is out of bounds, which the precondition
/// rules out.
#[verifier::external_body]
pub(crate) fn swap_in_slice<E>(slice: &mut [E], a: usize, b: usize)
    requires
        a < old(slice)@.len(),
        b < old(slice)@.len(),
    ensures
        final(slice)@ == old(slice)@.update(a as int, old(slice)@[b as int]).update(
            b as int,
            old(slice)@[a as int],
        ),
{
    slice.swap(a, b)
}

/// The slice method `reverse` of the standard library: it reverses the order of
/// the values in place.
#[verifier::external_body]
pub(crate) fn reverse_slice<E>(slice: &mut [E])
    ensures
        final(slice)@ == old(slice)@.reverse(),
{
    slice.reverse()
}

/// Mutable range indexing of a `Vec`: the result is the window `[start, end)` of
/// the column. Whatever is written through it lands in that window; the values
/// outside it stay, and since a slice cannot grow or shrink, so does the column's
/// length. Indexing panics where the range is out of bounds, which the
/// precondition rules out.
#[verifier::external_body]
pub(crate) fn window_mut<'a, E>(column: &'a mut Vec<E>, start: usize, end: usize) -> (window:
    &'a mut [E])
    requires
        start <= end <= old(column)@.len(),
    ensures
        window@ == old(column)@.subrange(start as int, end as int),
        final(window)@.len() == window@.len(),
        final(column)@ == old(column)@.subrange(0, start as int) + final(window)@ + old(
            column,
        )@.subrange(end as int, old(column)@.len() as int),
{
    &mut column[start..end]
}

/// `core::slice::IterMut`, the iterator that hands out mutable references to the
/// values of a slice.
#[verifier::external_type_specification]
#[verifier::external_body]
#[verifier::reject_recursive_types(Item)]
pub struct ExSliceIterMut<'a, Item: 'a>(core::slice::IterMut<'a, Item>);

/// The slice method `iter_mut` of the standard library: an iterator that hands
/// out a mutable reference to each value of the slice, first to last. Nothing
/// is promised of the iterator here; the slice keeps its length.
pub assume_specification<'a, T>[ <[T]>::iter_mut ](slice: &'a mut [T]) -> (iter:
    core::slice::IterMut<'a, T>)
    ensures
        final(slice)@.len() == old(slice)@.len(),
;

/// Whether `iter` is an iterator that the slice method `iter_mut` of the
/// standard library gives for a mutable slice that holds `values`.
pub open spec fn iterates_mut<E>(values: Seq<E>, iter: core::slice::IterMut<'_, E>) -> bool {
    exists|slice: &mut [E]|
        slice@ == values && #[trigger] call_ensures(<[E]>::iter_mut, (slice,), iter)
}

/// Calls `f` on `argument`. The call is made through the function as a value, so
/// that the contract can say of the result that it is one that `f` gives for
/// the argument.
pub(crate) fn call_with<A, B, F: FnOnce(A) -> B>(f: F, argument: A) -> (result: B)
    requires
        call_requires(f, (argument,)),
    ensures
        call_ensures(f, (argument,), result),
{
    f(argument)
}

/// The iterator of the standard library that hands out a mutable reference to
/// each value of the slice, first to last. The slice keeps its length.
pub(crate) fn values_mut<'a, E>(slice: &'a mut [E]) -> (iter: core::slice::IterMut<'a, E>)
    ensures
        iterates_mut(old(slice)@, iter),
        final(slice)@.len() == old(slice)@.len(),
{
    call_with(<[E]>::iter_mut, slice)
}

/// The conversion of a `Vec` into a `VecDeque` of the standard library: the
/// deque holds the values of the vector, in order.
#[verifier::external_body]
pub(crate) fn into_deque<E>(column: Vec<E>) -> (deque: VecDeque<E>)
    ensures
        deque@ == column@,
{
    VecDeque::from(column)
}

/// The window `[start, end)` of a column.
pub(crate) fn window<'a, E>(column: &'a Vec<E>, start: usize, end: usize) -> (window: &'a [E])
    requires
        start <= end <= column@.len(),
    ensures
        window@ == column@.subrange(start as int, end as int),
{
    slice_subrange(column.as_slice(), start, end)
}

/// Exchanges the values at `a` and `b` of a column.
pub(crate) fn swap_values<E>(column: &mut Vec<E>, a: usize, b: usize)
    requires
        a < old(column)@.len(),
        b < old(column)@.len(),
    ensures
        final(column)@ == old(column)@.update(a as int, old(column)@[b as int]).update(
            b as int,
            old(column)@[a as int],
        ),
{
    swap_in_slice(column.as_mut_slice(), a, b);
}

/// Reverses the window `[start, end)` of a column and leaves the rest as it is.
pub(crate) fn reverse_window<E>(column: &mut Vec<E>, start: usize, end: usize)
    requires
        start <= end <= old(column)@.len(),
    ensures
        final(column)@ == old(column)@.subrange(0, start as int) + old(column)@.subrange(
            start as int,
            end as int,
        ).reverse() + old(column)@.subrange(end as int, old(column)@.len() as int),
{
    reverse_slice(window_mut(column, start, end));
}

/// Puts `value` in place of the value at `index`, which is dropped.
pub(crate) fn set_value<E>(column: &mut Vec<E>, index: usize, value: E)
    requires
        index < old(column)@.len(),
    ensures
        final(column)@ == old(column)@.update(index as int, value),
{
    column[index] = value;
}

} // verus!
