//! The shape of a record, and the column-wise storage of a sequence of records.
//!
//! A record shape is a tuple type. Its storage holds one column per field; the
//! columns are *aligned* when they all hold the same number of values, and an
//! aligned storage stands for the sequence of records that [`ParallelParam::rows`]
//! reads off the columns. Every operation of the trait says what it does to that
//! sequence.
use crate::layout::BlockLayout;
use crate::sealed::Sealed;
use vstd::prelude::*;

verus! {

/// A record shape: a tuple of two to twelve field types.
///
/// The trait carries the column-wise primitives on which the containers and views
/// of this crate are built. None of them checks an index: each states in its
/// precondition what the checked layer above it has to establish. The trait is
/// sealed: it is implemented here, for tuples, and nowhere else.
pub trait ParallelParam: Sized + 'static + Sealed {
    /// One growable column per field.
    type Storage;

    /// One shared reference per field of one record.
    type Ref<'a>;

    /// One mutable reference per field of one record.
    type RefMut<'a>;

    /// One shared slice per column.
    type Slices<'a>;

    /// One mutable slice per column.
    type SlicesMut<'a>;

    /// One iterator of the standard library per column.
    type Iters<'a>;

    /// One iterator of the standard library per column, for writing.
    type ItersMut<'a>;

    /// One column per field that can be taken from at both ends.
    type Deques;

    /// The layouts of the values of the fields, in the order of the fields.
    spec fn fields() -> Seq<BlockLayout>;

    /// Whether all columns hold the same number of values.
    spec fn aligned(storage: &Self::Storage) -> bool;

    /// Whether all columns that can be taken from at both ends hold the same
    /// number of values.
    spec fn deques_aligned(deques: &Self::Deques) -> bool;

    /// The records that aligned columns of that kind hold, first to last.
    spec fn deques_rows(deques: &Self::Deques) -> Seq<Self>;

    /// The records that aligned columns hold, first to last.
    spec fn rows(storage: &Self::Storage) -> Seq<Self>;

    /// The record that a tuple of shared references points to.
    spec fn ref_value(record: Self::Ref<'_>) -> Self;

    /// The references that point to the fields of `value`.
    spec fn ref_of<'a>(value: Self) -> Self::Ref<'a>;

    /// The record that a tuple of mutable references currently points to.
    spec fn mut_value(record: Self::RefMut<'_>) -> Self;

    /// Whether all slices have the same length.
    spec fn slices_aligned(slices: Self::Slices<'_>) -> bool;

    /// The records that aligned slices hold, first to last.
    spec fn slices_rows(slices: Self::Slices<'_>) -> Seq<Self>;

    /// The iterators of the standard library over the slices.
    spec fn iters_of<'a>(slices: Self::Slices<'a>) -> Self::Iters<'a>;

    /// Whether `iters` are the iterators of the standard library that hand out
    /// mutable references to the values that the mutable slices hold, one
    /// iterator for each slice.
    spec fn iters_mut_of(slices: Self::SlicesMut<'_>, iters: Self::ItersMut<'_>) -> bool;

    /// Whether all mutable slices have the same length.
    spec fn slices_mut_aligned(slices: Self::SlicesMut<'_>) -> bool;

    /// The records that aligned mutable slices currently hold, first to last.
    spec fn slices_mut_rows(slices: Self::SlicesMut<'_>) -> Seq<Self>;

    /// References are told apart by the record they point to alone.
    proof fn lemma_ref_of(record: Self::Ref<'_>)
        ensures
            Self::ref_of(Self::ref_value(record)) == record,
    ;

    /// Aligned columns hold no more records than a `usize` can count.
    proof fn lemma_rows_len(storage: &Self::Storage)
        requires
            Self::aligned(storage),
        ensures
            Self::rows(storage).len() <= usize::MAX,
    ;

    /// The layouts of the values of the fields, in the order of the fields.
    fn field_layouts() -> (fields: Vec<BlockLayout>)
        ensures
            fields@ == Self::fields(),
            forall|i: int| 0 <= i < fields@.len() ==> (#[trigger] fields@[i]).is_field(),
    ;

    /// Columns that hold nothing and have reserved no memory.
    fn dangling() -> (storage: Self::Storage)
        ensures
            Self::aligned(&storage),
            Self::rows(&storage) == Seq::<Self>::empty(),
    ;

    /// Empty columns with room for `capacity` records each.
    fn allocate(capacity: usize) -> (storage: Self::Storage)
        ensures
            Self::aligned(&storage),
            Self::rows(&storage) == Seq::<Self>::empty(),
    ;

    /// The number of records in aligned columns.
    fn len(storage: &Self::Storage) -> (len: usize)
        requires
            Self::aligned(storage),
        ensures
            len == Self::rows(storage).len(),
    ;

    /// The common length of the columns, or `None` where they differ in length.
    fn get_vec_len(vecs: &Self::Storage) -> (len: Option<usize>)
        ensures
            len is Some <==> Self::aligned(vecs),
            len matches Some(n) ==> n == Self::rows(vecs).len(),
    ;

    /// References to the fields of the record at `index`.
    fn as_ref<'a>(storage: &'a Self::Storage, index: usize) -> (record: Self::Ref<'a>)
        requires
            Self::aligned(storage),
            index < Self::rows(storage).len(),
        ensures
            Self::ref_value(record) == Self::rows(storage)[index as int],
    ;

    /// Mutable references to the fields of the record at `index`. Whatever is
    /// written through them, the columns stay aligned and every other record
    /// stays as it is.
    fn as_mut<'a>(storage: &'a mut Self::Storage, index: usize) -> (record: Self::RefMut<'a>)
        requires
            Self::aligned(old(storage)),
            index < Self::rows(old(storage)).len(),
        ensures
            Self::mut_value(record) == Self::rows(old(storage))[index as int],
            Self::aligned(final(storage)),
            Self::rows(final(storage)).len() == Self::rows(old(storage)).len(),
            forall|j: int|
                0 <= j < Self::rows(old(storage)).len() && j != index ==> Self::rows(
                    final(storage),
                )[j] == Self::rows(old(storage))[j],
    ;

    /// The windows `[start, end)` of all columns.
    fn as_slices<'a>(storage: &'a Self::Storage, start: usize, end: usize) -> (slices:
        Self::Slices<'a>)
        requires
            Self::aligned(storage),
            start <= end <= Self::rows(storage).len(),
        ensures
            Self::slices_aligned(slices),
            Self::slices_rows(slices) == Self::rows(storage).subrange(start as int, end as int),
    ;

    /// The windows `[start, end)` of all columns, for writing. Whatever is written
    /// through them, the columns stay aligned and the records outside the window
    /// stay as they are.
    fn as_slices_mut<'a>(storage: &'a mut Self::Storage, start: usize, end: usize) -> (slices:
        Self::SlicesMut<'a>)
        requires
            Self::aligned(old(storage)),
            start <= end <= Self::rows(old(storage)).len(),
        ensures
            Self::slices_mut_aligned(slices),
            Self::slices_mut_rows(slices) == Self::rows(old(storage)).subrange(
                start as int,
                end as int,
            ),
            Self::aligned(final(storage)),
            Self::rows(final(storage)).len() == Self::rows(old(storage)).len(),
            forall|j: int|
                0 <= j < Self::rows(old(storage)).len() && !(start <= j < end) ==> Self::rows(
                    final(storage),
                )[j] == Self::rows(old(storage))[j],
    ;

    /// One iterator of the standard library over each slice.
    fn iters<'a>(slices: Self::Slices<'a>) -> (iters: Self::Iters<'a>)
        ensures
            iters == Self::iters_of(slices),
    ;

    /// One iterator of the standard library over each mutable slice, which hands
    /// out mutable references to the values that the slice holds.
    fn iters_mut<'a>(slices: Self::SlicesMut<'a>) -> (iters: Self::ItersMut<'a>)
        ensures
            Self::iters_mut_of(slices, iters),
    ;

    /// The same records in columns that can be taken from at both ends.
    fn into_deques(storage: Self::Storage) -> (deques: Self::Deques)
        requires
            Self::aligned(&storage),
        ensures
            Self::deques_aligned(&deques),
            Self::deques_rows(&deques) == Self::rows(&storage),
    ;

    /// The number of records in aligned columns of that kind.
    fn deques_len(deques: &Self::Deques) -> (len: usize)
        requires
            Self::deques_aligned(deques),
        ensures
            len == Self::deques_rows(deques).len(),
    ;

    /// Takes the first record out.
    fn pop_front(deques: &mut Self::Deques) -> (value: Self)
        requires
            Self::deques_aligned(old(deques)),
            Self::deques_rows(old(deques)).len() > 0,
        ensures
            Self::deques_aligned(final(deques)),
            value == Self::deques_rows(old(deques)).first(),
            Self::deques_rows(final(deques)) == Self::deques_rows(old(deques)).drop_first(),
    ;

    /// Takes the last record out.
    fn pop_back(deques: &mut Self::Deques) -> (value: Self)
        requires
            Self::deques_aligned(old(deques)),
            Self::deques_rows(old(deques)).len() > 0,
        ensures
            Self::deques_aligned(final(deques)),
            value == Self::deques_rows(old(deques)).last(),
            Self::deques_rows(final(deques)) == Self::deques_rows(old(deques)).drop_last(),
    ;

    /// Appends one record.
    fn push(storage: &mut Self::Storage, value: Self)
        requires
            Self::aligned(old(storage)),
        ensures
            Self::aligned(final(storage)),
            Self::rows(final(storage)) == Self::rows(old(storage)).push(value),
    ;

    /// Takes the last record out.
    fn pop(storage: &mut Self::Storage) -> (value: Self)
        requires
            Self::aligned(old(storage)),
            Self::rows(old(storage)).len() > 0,
        ensures
            Self::aligned(final(storage)),
            value == Self::rows(old(storage)).last(),
            Self::rows(final(storage)) == Self::rows(old(storage)).drop_last(),
    ;

    /// Puts one record at `index` and moves the records from there on up by one.
    fn insert(storage: &mut Self::Storage, index: usize, value: Self)
        requires
            Self::aligned(old(storage)),
            index <= Self::rows(old(storage)).len(),
        ensures
            Self::aligned(final(storage)),
            Self::rows(final(storage)) == Self::rows(old(storage)).insert(index as int, value),
    ;

    /// Takes the record at `index` out and moves the records after it down by one.
    fn remove(storage: &mut Self::Storage, index: usize) -> (value: Self)
        requires
            Self::aligned(old(storage)),
            index < Self::rows(old(storage)).len(),
        ensures
            Self::aligned(final(storage)),
            value == Self::rows(old(storage))[index as int],
            Self::rows(final(storage)) == Self::rows(old(storage)).remove(index as int),
    ;

    /// Takes the record at `index` out and puts the last record in its place.
    fn swap_remove(storage: &mut Self::Storage, index: usize) -> (value: Self)
        requires
            Self::aligned(old(storage)),
            index < Self::rows(old(storage)).len(),
        ensures
            Self::aligned(final(storage)),
            value == Self::rows(old(storage))[index as int],
            Self::rows(final(storage)) == Self::rows(old(storage)).update(
                index as int,
                Self::rows(old(storage)).last(),
            ).drop_last(),
    ;

    /// Drops the records from `len` on.
    fn truncate(storage: &mut Self::Storage, len: usize)
        requires
            Self::aligned(old(storage)),
            len <= Self::rows(old(storage)).len(),
        ensures
            Self::aligned(final(storage)),
            Self::rows(final(storage)) == Self::rows(old(storage)).take(len as int),
    ;

    /// Puts `value` in place of the record at `index`, which is dropped.
    fn set(storage: &mut Self::Storage, index: usize, value: Self)
        requires
            Self::aligned(old(storage)),
            index < Self::rows(old(storage)).len(),
        ensures
            Self::aligned(final(storage)),
            Self::rows(final(storage)) == Self::rows(old(storage)).update(index as int, value),
    ;

    /// Exchanges the records at `a` and `b`.
    fn swap(storage: &mut Self::Storage, a: usize, b: usize)
        requires
            Self::aligned(old(storage)),
            a < Self::rows(old(storage)).len(),
            b < Self::rows(old(storage)).len(),
        ensures
            Self::aligned(final(storage)),
            Self::rows(final(storage)) == Self::rows(old(storage)).update(
                a as int,
                Self::rows(old(storage))[b as int],
            ).update(b as int, Self::rows(old(storage))[a as int]),
    ;

    /// Exchanges the record at `index` with the record at `other_index` of other
    /// columns.
    fn swap_with(
        storage: &mut Self::Storage,
        index: usize,
        other: &mut Self::Storage,
        other_index: usize,
    )
        requires
            Self::aligned(old(storage)),
            Self::aligned(old(other)),
            index < Self::rows(old(storage)).len(),
            other_index < Self::rows(old(other)).len(),
        ensures
            Self::aligned(final(storage)),
            Self::aligned(final(other)),
            Self::rows(final(storage)) == Self::rows(old(storage)).update(
                index as int,
                Self::rows(old(other))[other_index as int],
            ),
            Self::rows(final(other)) == Self::rows(old(other)).update(
                other_index as int,
                Self::rows(old(storage))[index as int],
            ),
    ;

    /// Reverses the order of the records in `[start, end)`.
    fn reverse(storage: &mut Self::Storage, start: usize, end: usize)
        requires
            Self::aligned(old(storage)),
            start <= end <= Self::rows(old(storage)).len(),
        ensures
            Self::aligned(final(storage)),
            Self::rows(final(storage)) == Self::rows(old(storage)).subrange(0, start as int)
                + Self::rows(old(storage)).subrange(start as int, end as int).reverse()
                + Self::rows(old(storage)).subrange(
                end as int,
                Self::rows(old(storage)).len() as int,
            ),
    ;

    /// Moves all records of `src` to the end of `dst`, in order.
    fn copy_to(src: &mut Self::Storage, dst: &mut Self::Storage)
        requires
            Self::aligned(old(src)),
            Self::aligned(old(dst)),
        ensures
            Self::aligned(final(src)),
            Self::aligned(final(dst)),
            Self::rows(final(src)) == Seq::<Self>::empty(),
            Self::rows(final(dst)) == Self::rows(old(dst)) + Self::rows(old(src)),
    ;
}

/// A record shape whose fields can be cloned.
pub trait ParallelParamClone: ParallelParam {
    /// Whether every field of `copy` is a clone of the same field of `value`.
    spec fn cloned_fields(value: Self, copy: Self) -> bool;

    /// A clone of the record at `index`, made field by field.
    fn read_clone(storage: &Self::Storage, index: usize) -> (copy: Self)
        requires
            Self::aligned(storage),
            index < Self::rows(storage).len(),
        ensures
            Self::cloned_fields(Self::rows(storage)[index as int], copy),
    ;
}

/// A record shape whose fields can be copied.
pub trait ParallelParamCopy: ParallelParam {
    /// A copy of the record at `index`.
    fn read(storage: &Self::Storage, index: usize) -> (copy: Self)
        requires
            Self::aligned(storage),
            index < Self::rows(storage).len(),
        ensures
            copy == Self::rows(storage)[index as int],
    ;
}

} // verus!
