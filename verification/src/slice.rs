//! Views of a run of records, and what can index them.
use crate::iter::{Iter, IterMut};
use crate::param::ParallelParam;
use crate::permute::{is_order_of, selected, with_window};
use crate::sort::{
    is_comparison_of, is_key_of, sort_window_by, sort_window_by_key, sort_window_unstable_by,
    sort_window_unstable_by_key, sorts, sorts_by_key, sorts_stably, sorts_stably_by_key,
};
use core::cmp::Ordering;
use core::ops::Range;
use vstd::prelude::*;

verus! {

/// A shared view of a run of records.
///
/// The view of a `ParallelSlice` is the sequence of the records in its window.
pub struct ParallelSlice<'a, Param: ParallelParam> {
    storage: &'a Param::Storage,
    start: usize,
    len: usize,
}

impl<'a, Param: ParallelParam> View for ParallelSlice<'a, Param> {
    type V = Seq<Param>;

    closed spec fn view(&self) -> Seq<Param> {
        Param::rows(self.storage).subrange(self.start as int, self.start + self.len)
    }
}

/// What selects a part of a view: a position, which selects one record, or a
/// range of positions, which selects a narrower view.
pub trait ParallelSliceIndex<Param: ParallelParam>: Sized {
    /// What the index selects from a shared view.
    type Output<'a>;

    /// Whether the index lies within a view of `len` records.
    spec fn in_bounds(self, len: nat) -> bool;

    /// Whether `output` is what the index selects from a view of `rows`.
    spec fn selects(self, rows: Seq<Param>, output: Self::Output<'_>) -> bool;

    /// What the index selects, or `None` where it is out of bounds.
    fn get<'a>(self, slice: &ParallelSlice<'a, Param>) -> (output: Option<Self::Output<'a>>)
        requires
            slice.wf(),
        ensures
            output is Some <==> self.in_bounds(slice@.len()),
            output matches Some(selected) ==> self.selects(slice@, selected),
    ;

    /// What the index selects.
    fn index<'a>(self, slice: &ParallelSlice<'a, Param>) -> (output: Self::Output<'a>)
        requires
            slice.wf(),
            self.in_bounds(slice@.len()),
        ensures
            self.selects(slice@, output),
    ;
}

impl<'a, Param: ParallelParam> ParallelSlice<'a, Param> {
    /// The invariant of the view: the columns it looks at are aligned and hold
    /// its whole window.
    pub closed spec fn wf(&self) -> bool {
        &&& Param::aligned(self.storage)
        &&& self.start + self.len <= Param::rows(self.storage).len() <= usize::MAX
    }

    /// A view of the `len` records from `start` on in `data`.
    pub fn from_raw_parts(data: &'a Param::Storage, start: usize, len: usize) -> (slice: Self)
        requires
            Param::aligned(data),
            start + len <= Param::rows(data).len(),
        ensures
            slice.wf(),
            slice@ == Param::rows(data).subrange(start as int, start + len),
    {
        proof {
            Param::lemma_rows_len(data);
        }
        ParallelSlice { storage: data, start, len }
    }

    /// The number of records.
    pub fn len(&self) -> (len: usize)
        requires
            self.wf(),
        ensures
            len == self@.len(),
    {
        self.len
    }

    /// Whether the view holds no record.
    pub fn is_empty(&self) -> (empty: bool)
        requires
            self.wf(),
        ensures
            empty <==> self@.len() == 0,
    {
        self.len == 0
    }

    /// The columns of the view, one slice per field.
    pub fn as_slices(&self) -> (slices: Param::Slices<'a>)
        requires
            self.wf(),
        ensures
            Param::slices_aligned(slices),
            Param::slices_rows(slices) == self@,
    {
        Param::as_slices(self.storage, self.start, self.start + self.len)
    }

    /// What `index` selects, or `None` where it is out of bounds.
    pub fn get<I: ParallelSliceIndex<Param>>(&self, index: I) -> (output: Option<I::Output<'a>>)
        requires
            self.wf(),
        ensures
            output is Some <==> index.in_bounds(self@.len()),
            output matches Some(selected) ==> index.selects(self@, selected),
    {
        index.get(self)
    }

    /// What `index` selects.
    pub fn index<I: ParallelSliceIndex<Param>>(&self, index: I) -> (output: I::Output<'a>)
        requires
            self.wf(),
            index.in_bounds(self@.len()),
        ensures
            index.selects(self@, output),
    {
        index.index(self)
    }

    /// The record at `index`.
    pub fn get_unchecked(&self, index: usize) -> (record: Param::Ref<'a>)
        requires
            self.wf(),
            index < self@.len(),
        ensures
            Param::ref_value(record) == self@[index as int],
    {
        Param::as_ref(self.storage, self.start + index)
    }

    /// The first record, or `None` where the view is empty.
    pub fn first(&self) -> (record: Option<Param::Ref<'a>>)
        requires
            self.wf(),
        ensures
            record is Some <==> self@.len() > 0,
            record matches Some(first) ==> Param::ref_value(first) == self@.first(),
    {
        if self.len == 0 {
            None
        } else {
            Some(self.get_unchecked(0))
        }
    }

    /// The last record, or `None` where the view is empty.
    pub fn last(&self) -> (record: Option<Param::Ref<'a>>)
        requires
            self.wf(),
        ensures
            record is Some <==> self@.len() > 0,
            record matches Some(last) ==> Param::ref_value(last) == self@.last(),
    {
        if self.len == 0 {
            None
        } else {
            Some(self.get_unchecked(self.len - 1))
        }
    }

    /// The view of the records `[start, end)` of this view.
    fn narrow(&self, start: usize, end: usize) -> (slice: ParallelSlice<'a, Param>)
        requires
            self.wf(),
            start <= end <= self@.len(),
        ensures
            slice.wf(),
            slice@ == self@.subrange(start as int, end as int),
    {
        let slice = ParallelSlice {
            storage: self.storage,
            start: self.start + start,
            len: end - start,
        };
        assert(slice@ =~= self@.subrange(start as int, end as int));
        slice
    }

    /// An iterator over the records.
    pub fn iter(&self) -> (iter: Iter<'a, Param>)
        requires
            self.wf(),
        ensures
            iter.wf(),
            iter@ == self@,
    {
        Iter::new(self.storage, self.start, self.len)
    }

    /// One iterator of the standard library per column.
    pub fn iters(&self) -> (iters: Param::Iters<'a>)
        requires
            self.wf(),
        ensures
            exists|slices: Param::Slices<'a>|
                {
                    &&& Param::slices_aligned(slices)
                    &&& Param::slices_rows(slices) == self@
                    &&& iters == #[trigger] Param::iters_of(slices)
                },
    {
        Param::iters(self.as_slices())
    }
}

/// A view of a run of records through which they can be changed.
///
/// The view of a `ParallelSliceMut` is the sequence of the records in its window:
/// the `len` records from `start` on in the columns that `storage` borrows. The
/// fields are public so that contracts can say how what is done through a view
/// shows in the container that it was borrowed from. A view that was not made by
/// this crate has to be well-formed (see [`ParallelSliceMut::wf`]) before it is
/// used.
pub struct ParallelSliceMut<'a, Param: ParallelParam> {
    /// The columns that the view looks at.
    pub storage: &'a mut Param::Storage,
    /// Where the window starts in the columns.
    pub start: usize,
    /// The number of records in the window.
    pub len: usize,
}

impl<'a, Param: ParallelParam> View for ParallelSliceMut<'a, Param> {
    type V = Seq<Param>;

    open spec fn view(&self) -> Seq<Param> {
        Param::rows(&*self.storage).subrange(self.start as int, self.start + self.len)
    }
}

/// Where two sequences of one length agree outside a window, they agree before
/// it and after it.
pub proof fn lemma_same_frame<Param>(before: Seq<Param>, after: Seq<Param>, start: int, len: int)
    ensures
        ({
            &&& 0 <= start
            &&& 0 <= len
            &&& start + len <= before.len()
            &&& after.len() == before.len()
            &&& forall|j: int|
                0 <= j < before.len() && !(start <= j < start + len) ==> after[j] == before[j]
        }) ==> after.take(start) == before.take(start) && after.skip(start + len) == before.skip(
            start + len,
        ),
{
    if 0 <= start && 0 <= len && start + len <= before.len() && after.len() == before.len() && (
    forall|j: int| 0 <= j < before.len() && !(start <= j < start + len) ==> after[j] == before[j]) {
        assert(after.take(start) =~= before.take(start));
        assert(after.skip(start + len) =~= before.skip(start + len));
    }
}

/// Whether the records `after` are the records `before` but for those that
/// `touched` names, counted from `start`, and lie in columns that are `aligned`.
pub open spec fn frame_kept<Param>(
    before: Seq<Param>,
    after: Seq<Param>,
    aligned: bool,
    start: int,
    touched: spec_fn(int) -> bool,
) -> bool {
    &&& aligned
    &&& after.len() == before.len()
    &&& forall|j: int| 0 <= j < before.len() && !touched(j - start) ==> after[j] == before[j]
}

/// What selects a part of a view for writing: a position, which selects one
/// record, or a range of positions, which selects a narrower view.
pub trait ParallelSliceIndexMut<Param: ParallelParam>: Sized {
    /// What the index selects from a view for writing.
    type Output<'a>;

    /// Whether the index lies within a view of `len` records.
    spec fn in_bounds_mut(self, len: nat) -> bool;

    /// Whether `output` is what the index selects from a view of `rows`.
    spec fn selects_mut(self, rows: Seq<Param>, output: Self::Output<'_>) -> bool;

    /// Whether what the index selects gives access to the fields of records
    /// only, so that no record can be added, taken away or moved through it.
    spec fn writes_in_place(self) -> bool;

    /// Whether the index selects the record at `position` of the view.
    spec fn touches(self, position: int) -> bool;

    /// The position of the first record that the index selects from a view of
    /// `len` records, and the number of records that it selects.
    spec fn window(self, len: nat) -> (int, int);

    /// The view that `output` is, where the index selects views.
    spec fn as_view<'a>(output: Self::Output<'a>) -> Option<ParallelSliceMut<'a, Param>>;

    /// What the index selects, or `None` where it is out of bounds; then nothing
    /// changes. Where the index writes in place, the columns stay aligned and
    /// the records that it does not select stay as they are, whatever is
    /// written. Where it selects a view, that view takes the borrow of the
    /// columns over: what its columns hold in the end is what the columns of
    /// `slice` hold in the end.
    fn get_mut<'a>(self, slice: ParallelSliceMut<'a, Param>) -> (output: Option<
        Self::Output<'a>,
    >)
        requires
            slice.wf(),
        ensures
            output is Some <==> self.in_bounds_mut(slice@.len()),
            output matches Some(selected) ==> self.selects_mut(slice@, selected),
            output is None ==> *final(slice.storage) == *old(slice.storage),
            output matches Some(selected) ==> (Self::as_view(selected) matches Some(view) ==> {
                &&& view.start == slice.start + self.window(slice@.len()).0
                &&& view.len == self.window(slice@.len()).1
                &&& *view.storage == *old(slice.storage)
                &&& *final(view.storage) == *final(slice.storage)
            }),
            self.writes_in_place() ==> frame_kept::<Param>(
                Param::rows(old(slice.storage)),
                Param::rows(final(slice.storage)),
                Param::aligned(final(slice.storage)),
                slice.start as int,
                |position: int| self.touches(position),
            ),
    ;

    /// What the index selects. Where the index writes in place, the columns stay
    /// aligned and the records that it does not select stay as they are,
    /// whatever is written. Where it selects a view, that view takes the borrow
    /// of the columns over: what its columns hold in the end is what the columns
    /// of `slice` hold in the end.
    fn index_mut<'a>(self, slice: ParallelSliceMut<'a, Param>) -> (output: Self::Output<'a>)
        requires
            slice.wf(),
            self.in_bounds_mut(slice@.len()),
        ensures
            self.selects_mut(slice@, output),
            Self::as_view(output) matches Some(view) ==> {
                &&& view.start == slice.start + self.window(slice@.len()).0
                &&& view.len == self.window(slice@.len()).1
                &&& *view.storage == *old(slice.storage)
                &&& *final(view.storage) == *final(slice.storage)
            },
            self.writes_in_place() ==> frame_kept::<Param>(
                Param::rows(old(slice.storage)),
                Param::rows(final(slice.storage)),
                Param::aligned(final(slice.storage)),
                slice.start as int,
                |position: int| self.touches(position),
            ),
    ;
}

impl<'a, Param: ParallelParam> ParallelSliceMut<'a, Param> {
    /// The invariant of the view: the columns it looks at are aligned and hold
    /// its whole window.
    pub open spec fn wf(&self) -> bool {
        &&& Param::aligned(&*self.storage)
        &&& self.start + self.len <= Param::rows(&*self.storage).len() <= usize::MAX
    }

    /// All records of the columns that the view looks at.
    pub open spec fn rows(&self) -> Seq<Param> {
        Param::rows(&*self.storage)
    }

    /// The records in the columns before the window.
    pub open spec fn before(&self) -> Seq<Param> {
        Param::rows(&*self.storage).take(self.start as int)
    }

    /// The records in the columns after the window.
    pub open spec fn after(&self) -> Seq<Param> {
        Param::rows(&*self.storage).skip(self.start + self.len)
    }

    /// Whether this view has the window of `other` and the same records around
    /// it, in columns of the same length.
    pub open spec fn same_frame(&self, other: &Self) -> bool {
        &&& self.start == other.start
        &&& self.len == other.len
        &&& self.rows().len() == other.rows().len()
        &&& self.before() == other.before()
        &&& self.after() == other.after()
    }

    /// A view that has the frame of a view of all records of its columns is a
    /// view of all records of its columns.
    pub proof fn lemma_whole(&self, other: &Self)
        requires
            self.wf(),
            self.same_frame(other),
            other.start == 0,
            other.len == other.rows().len(),
        ensures
            self.rows() == self@,
    {
        assert(other.after().len() == 0);
        assert(self.after().len() == 0);
        assert(self.rows() =~= self@);
    }

    /// A view of the `len` records from `start` on in `data`.
    pub fn from_raw_parts(data: &'a mut Param::Storage, start: usize, len: usize) -> (slice: Self)
        requires
            Param::aligned(old(data)),
            start + len <= Param::rows(old(data)).len(),
        ensures
            slice.wf(),
            slice@ == Param::rows(old(data)).subrange(start as int, start + len),
            slice.start == start,
            slice.len == len,
            *slice.storage == *old(data),
            *final(slice.storage) == *final(data),
    {
        proof {
            Param::lemma_rows_len(data);
        }
        ParallelSliceMut { storage: data, start, len }
    }

    /// The number of records.
    pub fn len(&self) -> (len: usize)
        ensures
            len == self.len,
            self.wf() ==> len == self@.len(),
    {
        self.len
    }

    /// Whether the view holds no record.
    pub fn is_empty(&self) -> (empty: bool)
        ensures
            empty <==> self.len == 0,
            self.wf() ==> (empty <==> self@.len() == 0),
    {
        self.len == 0
    }

    /// A shared view of the same records.
    pub fn as_slice(&self) -> (slice: ParallelSlice<'_, Param>)
        requires
            self.wf(),
        ensures
            slice.wf(),
            slice@ == self@,
    {
        ParallelSlice { storage: &*self.storage, start: self.start, len: self.len }
    }

    /// A view of the same records that gives this one back when it ends.
    pub fn reborrow(&mut self) -> (slice: ParallelSliceMut<'_, Param>)
        requires
            old(self).wf(),
        ensures
            slice.wf(),
            slice.start == old(self).start,
            slice.len == old(self).len,
            *slice.storage == *old(self).storage,
            *final(self).storage == *final(slice.storage),
            final(self).start == old(self).start,
            final(self).len == old(self).len,
            *final(final(self).storage) == *final(old(self).storage),
    {
        ParallelSliceMut { storage: &mut *self.storage, start: self.start, len: self.len }
    }

    /// The columns of the view, one slice per field.
    pub fn as_slices(&self) -> (slices: Param::Slices<'_>)
        requires
            self.wf(),
        ensures
            Param::slices_aligned(slices),
            Param::slices_rows(slices) == self@,
    {
        Param::as_slices(&*self.storage, self.start, self.start + self.len)
    }

    /// The columns of the view, one mutable slice per field. Whatever is written
    /// through them, the view stays well-formed and keeps its length.
    pub fn as_slices_mut(&mut self) -> (slices: Param::SlicesMut<'_>)
        requires
            old(self).wf(),
        ensures
            Param::slices_mut_aligned(slices),
            Param::slices_mut_rows(slices) == old(self)@,
            final(self).wf(),
            final(self).same_frame(old(self)),
            *final(final(self).storage) == *final(old(self).storage),
    {
        proof {
            lemma_same_frame(
                Param::rows(&*self.storage),
                Param::rows(&*final(self).storage),
                self.start as int,
                self.len as int,
            );
        }
        Param::as_slices_mut(&mut *self.storage, self.start, self.start + self.len)
    }

    /// What `index` selects, or `None` where it is out of bounds.
    pub fn get<'b, I: ParallelSliceIndex<Param>>(&'b self, index: I) -> (output: Option<
        I::Output<'b>,
    >)
        requires
            self.wf(),
        ensures
            output is Some <==> index.in_bounds(self@.len()),
            output matches Some(selected) ==> index.selects(self@, selected),
    {
        index.get(&self.as_slice())
    }

    /// What `index` selects.
    pub fn index<'b, I: ParallelSliceIndex<Param>>(&'b self, index: I) -> (output: I::Output<'b>)
        requires
            self.wf(),
            index.in_bounds(self@.len()),
        ensures
            index.selects(self@, output),
    {
        index.index(&self.as_slice())
    }

    /// What `index` selects, for writing, or `None` where it is out of bounds;
    /// then nothing changes.
    pub fn get_mut<'b, I: ParallelSliceIndexMut<Param>>(&'b mut self, index: I) -> (output:
        Option<I::Output<'b>>)
        requires
            old(self).wf(),
        ensures
            output is Some <==> index.in_bounds_mut(old(self)@.len()),
            output matches Some(selected) ==> index.selects_mut(old(self)@, selected),
            output is None ==> *final(self).storage == *old(self).storage,
            output matches Some(selected) ==> (I::as_view(selected) matches Some(view) ==> {
                &&& view.start == old(self).start + index.window(old(self)@.len()).0
                &&& view.len == index.window(old(self)@.len()).1
                &&& *view.storage == *old(self).storage
                &&& *final(view.storage) == *final(self).storage
            }),
            final(self).start == old(self).start,
            final(self).len == old(self).len,
            *final(final(self).storage) == *final(old(self).storage),
            index.writes_in_place() ==> frame_kept::<Param>(
                old(self).rows(),
                final(self).rows(),
                final(self).wf(),
                old(self).start as int,
                |position: int| index.touches(position),
            ),
    {
        index.get_mut(self.reborrow())
    }

    /// What `index` selects, for writing.
    pub fn index_mut<'b, I: ParallelSliceIndexMut<Param>>(&'b mut self, index: I) -> (output:
        I::Output<'b>)
        requires
            old(self).wf(),
            index.in_bounds_mut(old(self)@.len()),
        ensures
            index.selects_mut(old(self)@, output),
            I::as_view(output) matches Some(view) ==> {
                &&& view.start == old(self).start + index.window(old(self)@.len()).0
                &&& view.len == index.window(old(self)@.len()).1
                &&& *view.storage == *old(self).storage
                &&& *final(view.storage) == *final(self).storage
            },
            final(self).start == old(self).start,
            final(self).len == old(self).len,
            *final(final(self).storage) == *final(old(self).storage),
            index.writes_in_place() ==> frame_kept::<Param>(
                old(self).rows(),
                final(self).rows(),
                final(self).wf(),
                old(self).start as int,
                |position: int| index.touches(position),
            ),
    {
        index.index_mut(self.reborrow())
    }

    /// The record at `index`.
    pub fn get_unchecked(&self, index: usize) -> (record: Param::Ref<'_>)
        requires
            self.wf(),
            index < self.len,
        ensures
            Param::ref_value(record) == self@[index as int],
    {
        Param::as_ref(&*self.storage, self.start + index)
    }

    /// The record at `index`, for writing. Whatever is written, the view stays
    /// well-formed and all other records stay as they are.
    pub fn get_unchecked_mut(&mut self, index: usize) -> (record: Param::RefMut<'_>)
        requires
            old(self).wf(),
            index < old(self).len,
        ensures
            Param::mut_value(record) == old(self)@[index as int],
            final(self).wf(),
            final(self).same_frame(old(self)),
            *final(final(self).storage) == *final(old(self).storage),
            final(self)@.len() == old(self)@.len(),
            forall|k: int|
                0 <= k < old(self)@.len() && k != index ==> final(self)@[k] == old(self)@[k],
    {
        proof {
            lemma_same_frame(
                Param::rows(&*self.storage),
                Param::rows(&*final(self).storage),
                self.start as int,
                self.len as int,
            );
        }
        Param::as_mut(&mut *self.storage, self.start + index)
    }

    /// The first record, or `None` where the view is empty.
    pub fn first(&self) -> (record: Option<Param::Ref<'_>>)
        requires
            self.wf(),
        ensures
            record is Some <==> self@.len() > 0,
            record matches Some(first) ==> Param::ref_value(first) == self@.first(),
    {
        if self.len == 0 {
            None
        } else {
            Some(self.get_unchecked(0))
        }
    }

    /// The last record, or `None` where the view is empty.
    pub fn last(&self) -> (record: Option<Param::Ref<'_>>)
        requires
            self.wf(),
        ensures
            record is Some <==> self@.len() > 0,
            record matches Some(last) ==> Param::ref_value(last) == self@.last(),
    {
        if self.len == 0 {
            None
        } else {
            Some(self.get_unchecked(self.len - 1))
        }
    }

    /// The first record, for writing, or `None` where the view is empty.
    pub fn first_mut(&mut self) -> (record: Option<Param::RefMut<'_>>)
        requires
            old(self).wf(),
        ensures
            record is Some <==> old(self)@.len() > 0,
            record matches Some(first) ==> Param::mut_value(first) == old(self)@.first(),
            final(self).wf(),
            final(self).same_frame(old(self)),
            *final(final(self).storage) == *final(old(self).storage),
            final(self)@.len() == old(self)@.len(),
            forall|k: int| 0 < k < old(self)@.len() ==> final(self)@[k] == old(self)@[k],
    {
        if self.len == 0 {
            None
        } else {
            Some(self.get_unchecked_mut(0))
        }
    }

    /// The last record, for writing, or `None` where the view is empty.
    pub fn last_mut(&mut self) -> (record: Option<Param::RefMut<'_>>)
        requires
            old(self).wf(),
        ensures
            record is Some <==> old(self)@.len() > 0,
            record matches Some(last) ==> Param::mut_value(last) == old(self)@.last(),
            final(self).wf(),
            final(self).same_frame(old(self)),
            *final(final(self).storage) == *final(old(self).storage),
            final(self)@.len() == old(self)@.len(),
            forall|k: int| 0 <= k < old(self)@.len() - 1 ==> final(self)@[k] == old(self)@[k],
    {
        if self.len == 0 {
            None
        } else {
            Some(self.get_unchecked_mut(self.len - 1))
        }
    }

    /// Puts `value` in place of the record at `index`, which is dropped.
    pub fn set(&mut self, index: usize, value: Param)
        requires
            old(self).wf(),
            index < old(self).len,
        ensures
            final(self).wf(),
            final(self).same_frame(old(self)),
            *final(final(self).storage) == *final(old(self).storage),
            final(self)@ == old(self)@.update(index as int, value),
    {
        self.set_unchecked(index, value);
    }

    /// Puts `value` in place of the record at `index`, which is dropped.
    pub fn set_unchecked(&mut self, index: usize, value: Param)
        requires
            old(self).wf(),
            index < old(self).len,
        ensures
            final(self).wf(),
            final(self).same_frame(old(self)),
            *final(final(self).storage) == *final(old(self).storage),
            final(self)@ == old(self)@.update(index as int, value),
    {
        Param::set(self.storage, self.start + index, value);
        assert(self@ =~= old(self)@.update(index as int, value));
        assert(self.before() =~= old(self).before());
        assert(self.after() =~= old(self).after());
    }

    /// Exchanges the records at `a` and `b`.
    pub fn swap(&mut self, a: usize, b: usize)
        requires
            old(self).wf(),
            a < old(self).len,
            b < old(self).len,
        ensures
            final(self).wf(),
            final(self).same_frame(old(self)),
            *final(final(self).storage) == *final(old(self).storage),
            final(self)@ == old(self)@.update(a as int, old(self)@[b as int]).update(
                b as int,
                old(self)@[a as int],
            ),
    {
        Param::swap(self.storage, self.start + a, self.start + b);
        assert(self@ =~= old(self)@.update(a as int, old(self)@[b as int]).update(
            b as int,
            old(self)@[a as int],
        ));
        assert(self.before() =~= old(self).before());
        assert(self.after() =~= old(self).after());
    }

    /// Exchanges the records at `a` and `b`.
    pub fn swap_unchecked(&mut self, a: usize, b: usize)
        requires
            old(self).wf(),
            a < old(self).len,
            b < old(self).len,
        ensures
            final(self).wf(),
            final(self).same_frame(old(self)),
            *final(final(self).storage) == *final(old(self).storage),
            final(self)@ == old(self)@.update(a as int, old(self)@[b as int]).update(
                b as int,
                old(self)@[a as int],
            ),
    {
        self.swap(a, b);
    }

    /// Exchanges the records of this view with those of `other`, position by
    /// position.
    pub fn swap_with(&mut self, other: &mut Self)
        requires
            old(self).wf(),
            old(other).wf(),
            old(self).len == old(other).len,
        ensures
            final(self).wf(),
            final(other).wf(),
            final(self).same_frame(old(self)),
            final(other).same_frame(old(other)),
            *final(final(self).storage) == *final(old(self).storage),
            *final(final(other).storage) == *final(old(other).storage),
            final(self)@ == old(other)@,
            final(other)@ == old(self)@,
    {
        let mut index: usize = 0;
        while index < self.len
            invariant
                self.wf(),
                other.wf(),
                index <= self.len == other.len,
                old(self)@.len() == self.len,
                old(other)@.len() == self.len,
                self.same_frame(old(self)),
                other.same_frame(old(other)),
                *final(self.storage) == *final(old(self).storage),
                *final(other.storage) == *final(old(other).storage),
                self@ == old(other)@.take(index as int) + old(self)@.skip(index as int),
                other@ == old(self)@.take(index as int) + old(other)@.skip(index as int),
            decreases self.len - index,
        {
            let ghost mine = self@;
            let ghost theirs = other@;
            assert(mine[index as int] == old(self)@[index as int]);
            assert(theirs[index as int] == old(other)@[index as int]);
            Param::swap_with(self.storage, self.start + index, other.storage, other.start + index);
            assert(self@ =~= mine.update(index as int, theirs[index as int]));
            assert(other@ =~= theirs.update(index as int, mine[index as int]));
            assert(self.before() =~= old(self).before());
            assert(self.after() =~= old(self).after());
            assert(other.before() =~= old(other).before());
            assert(other.after() =~= old(other).after());
            index = index + 1;
            assert(self@ =~= old(other)@.take(index as int) + old(self)@.skip(index as int));
            assert(other@ =~= old(self)@.take(index as int) + old(other)@.skip(index as int));
        }
        assert(self@ =~= old(other)@);
        assert(other@ =~= old(self)@);
    }

    /// Reverses the order of the records.
    pub fn reverse(&mut self)
        requires
            old(self).wf(),
        ensures
            final(self).wf(),
            final(self).same_frame(old(self)),
            *final(final(self).storage) == *final(old(self).storage),
            final(self)@ == old(self)@.reverse(),
    {
        if self.len == 0 {
            return ;
        }
        Param::reverse(self.storage, self.start, self.start + self.len);
        assert(self@ =~= old(self)@.reverse());
        assert(self.before() =~= old(self).before());
        assert(self.after() =~= old(self).after());
    }

    /// Puts what `f` returns in place of every record, asking `f` once for each.
    pub fn fill_with<F: Fn() -> Param>(&mut self, f: F)
        requires
            old(self).wf(),
            call_requires(f, ()),
        ensures
            final(self).wf(),
            final(self).same_frame(old(self)),
            *final(final(self).storage) == *final(old(self).storage),
            final(self)@.len() == old(self)@.len(),
            forall|k: int| 0 <= k < final(self)@.len() ==> call_ensures(f, (), final(self)@[k]),
    {
        let mut index: usize = 0;
        while index < self.len
            invariant
                self.wf(),
                index <= self.len,
                self.same_frame(old(self)),
                *final(self.storage) == *final(old(self).storage),
                call_requires(f, ()),
                forall|k: int| 0 <= k < index ==> call_ensures(f, (), self@[k]),
            decreases self.len - index,
        {
            let value = f();
            self.set_unchecked(index, value);
            index = index + 1;
        }
    }

    /// Sorts the records with `compare`, keeping the order of records that are
    /// equal under it. The comparison has to be a total order on the records.
    pub fn sort_by<F: Fn(Param::Ref<'_>, Param::Ref<'_>) -> Ordering>(&mut self, compare: F)
        requires
            old(self).wf(),
            is_comparison_of(compare, old(self)@),
        ensures
            final(self).wf(),
            final(self).same_frame(old(self)),
            *final(final(self).storage) == *final(old(self).storage),
            exists|order: Seq<usize>|
                {
                    &&& is_order_of(order, old(self)@)
                    &&& #[trigger] sorts_stably(compare, old(self)@, order)
                    &&& final(self)@ == selected(old(self)@, order)
                },
    {
        let ghost rows = self@;
        sort_window_by::<Param, F>(self.storage, self.start, self.len, compare);
        proof {
            let order = choose|order: Seq<usize>|
                {
                    &&& is_order_of(order, rows)
                    &&& #[trigger] sorts_stably(compare, rows, order)
                    &&& Param::rows(&*self.storage) == with_window(
                        Param::rows(&*old(self).storage),
                        self.start,
                        selected(rows, order),
                    )
                };
            assert(self@ =~= selected(rows, order));
            assert(self.before() =~= old(self).before());
            assert(self.after() =~= old(self).after());
        }
    }

    /// Sorts the records by their keys, keeping the order of records with equal
    /// keys. The order of the keys has to be lawful.
    pub fn sort_by_key<K: Ord, F: Fn(Param::Ref<'_>) -> K>(&mut self, key: F)
        requires
            old(self).wf(),
            is_key_of(key, old(self)@),
        ensures
            final(self).wf(),
            final(self).same_frame(old(self)),
            *final(final(self).storage) == *final(old(self).storage),
            exists|order: Seq<usize>|
                {
                    &&& is_order_of(order, old(self)@)
                    &&& #[trigger] sorts_stably_by_key(key, old(self)@, order)
                    &&& final(self)@ == selected(old(self)@, order)
                },
    {
        let ghost rows = self@;
        sort_window_by_key::<Param, K, F>(self.storage, self.start, self.len, key);
        proof {
            let order = choose|order: Seq<usize>|
                {
                    &&& is_order_of(order, rows)
                    &&& #[trigger] sorts_stably_by_key(key, rows, order)
                    &&& Param::rows(&*self.storage) == with_window(
                        Param::rows(&*old(self).storage),
                        self.start,
                        selected(rows, order),
                    )
                };
            assert(self@ =~= selected(rows, order));
            assert(self.before() =~= old(self).before());
            assert(self.after() =~= old(self).after());
        }
    }

    /// Sorts the records with `compare`; records that are equal under it may
    /// change their order. The comparison has to be a total order on the
    /// records.
    pub fn sort_unstable_by<F: Fn(Param::Ref<'_>, Param::Ref<'_>) -> Ordering>(&mut self, compare: F)
        requires
            old(self).wf(),
            is_comparison_of(compare, old(self)@),
        ensures
            final(self).wf(),
            final(self).same_frame(old(self)),
            *final(final(self).storage) == *final(old(self).storage),
            exists|order: Seq<usize>|
                {
                    &&& is_order_of(order, old(self)@)
                    &&& #[trigger] sorts(compare, old(self)@, order)
                    &&& final(self)@ == selected(old(self)@, order)
                },
    {
        let ghost rows = self@;
        sort_window_unstable_by::<Param, F>(self.storage, self.start, self.len, compare);
        proof {
            let order = choose|order: Seq<usize>|
                {
                    &&& is_order_of(order, rows)
                    &&& #[trigger] sorts(compare, rows, order)
                    &&& Param::rows(&*self.storage) == with_window(
                        Param::rows(&*old(self).storage),
                        self.start,
                        selected(rows, order),
                    )
                };
            assert(self@ =~= selected(rows, order));
            assert(self.before() =~= old(self).before());
            assert(self.after() =~= old(self).after());
        }
    }

    /// Sorts the records by their keys; records with equal keys may change their
    /// order. The order of the keys has to be lawful.
    pub fn sort_unstable_by_key<K: Ord, F: Fn(Param::Ref<'_>) -> K>(&mut self, key: F)
        requires
            old(self).wf(),
            is_key_of(key, old(self)@),
        ensures
            final(self).wf(),
            final(self).same_frame(old(self)),
            *final(final(self).storage) == *final(old(self).storage),
            exists|order: Seq<usize>|
                {
                    &&& is_order_of(order, old(self)@)
                    &&& #[trigger] sorts_by_key(key, old(self)@, order)
                    &&& final(self)@ == selected(old(self)@, order)
                },
    {
        let ghost rows = self@;
        sort_window_unstable_by_key::<Param, K, F>(self.storage, self.start, self.len, key);
        proof {
            let order = choose|order: Seq<usize>|
                {
                    &&& is_order_of(order, rows)
                    &&& #[trigger] sorts_by_key(key, rows, order)
                    &&& Param::rows(&*self.storage) == with_window(
                        Param::rows(&*old(self).storage),
                        self.start,
                        selected(rows, order),
                    )
                };
            assert(self@ =~= selected(rows, order));
            assert(self.before() =~= old(self).before());
            assert(self.after() =~= old(self).after());
        }
    }

    /// An iterator over the records.
    pub fn iter(&self) -> (iter: Iter<'_, Param>)
        requires
            self.wf(),
        ensures
            iter.wf(),
            iter@ == self@,
    {
        Iter::new(&*self.storage, self.start, self.len)
    }

    /// An iterator over the records through which they can be changed.
    pub fn iter_mut(&mut self) -> (iter: IterMut<'_, Param>)
        requires
            old(self).wf(),
        ensures
            iter.wf(),
            iter@ == old(self)@,
            iter.remaining.start == old(self).start,
            iter.remaining.len == old(self).len,
            *iter.remaining.storage == *old(self).storage,
            *final(self).storage == *final(iter.remaining.storage),
            final(self).start == old(self).start,
            final(self).len == old(self).len,
            *final(final(self).storage) == *final(old(self).storage),
    {
        IterMut { remaining: self.reborrow() }
    }

    /// One iterator of the standard library per column.
    pub fn iters(&self) -> (iters: Param::Iters<'_>)
        requires
            self.wf(),
        ensures
            exists|slices: Param::Slices<'_>|
                {
                    &&& Param::slices_aligned(slices)
                    &&& Param::slices_rows(slices) == self@
                    &&& iters == #[trigger] Param::iters_of(slices)
                },
    {
        Param::iters(self.as_slices())
    }

    /// One iterator of the standard library per column, which hands out mutable
    /// references to its values. The view stays well-formed and keeps its length.
    pub fn iters_mut(&mut self) -> (iters: Param::ItersMut<'_>)
        requires
            old(self).wf(),
        ensures
            exists|slices: Param::SlicesMut<'_>|
                {
                    &&& Param::slices_mut_aligned(slices)
                    &&& Param::slices_mut_rows(slices) == old(self)@
                    &&& #[trigger] Param::iters_mut_of(slices, iters)
                },
            final(self).wf(),
            final(self).same_frame(old(self)),
            *final(final(self).storage) == *final(old(self).storage),
    {
        Param::iters_mut(self.as_slices_mut())
    }
}

impl<'a, Param: ParallelParam + Clone> ParallelSliceMut<'a, Param> {
    /// Puts a clone of `value` in place of every record.
    pub fn fill(&mut self, value: Param)
        requires
            old(self).wf(),
        ensures
            final(self).wf(),
            final(self).same_frame(old(self)),
            *final(final(self).storage) == *final(old(self).storage),
            final(self)@.len() == old(self)@.len(),
            forall|k: int| 0 <= k < final(self)@.len() ==> cloned(value, final(self)@[k]),
    {
        let mut index: usize = 0;
        while index < self.len
            invariant
                self.wf(),
                index <= self.len,
                self.same_frame(old(self)),
                *final(self.storage) == *final(old(self).storage),
                forall|k: int| 0 <= k < index ==> cloned(value, self@[k]),
            decreases self.len - index,
        {
            let copy = value.clone();
            self.set_unchecked(index, copy);
            index = index + 1;
        }
    }
}

impl<Param: ParallelParam> ParallelSliceIndex<Param> for usize {
    type Output<'a> = Param::Ref<'a>;

    open spec fn in_bounds(self, len: nat) -> bool {
        self < len
    }

    open spec fn selects(self, rows: Seq<Param>, output: Self::Output<'_>) -> bool {
        Param::ref_value(output) == rows[self as int]
    }

    fn get<'a>(self, slice: &ParallelSlice<'a, Param>) -> (output: Option<Self::Output<'a>>) {
        if self >= slice.len() {
            return None;
        }
        Some(slice.get_unchecked(self))
    }

    fn index<'a>(self, slice: &ParallelSlice<'a, Param>) -> (output: Self::Output<'a>) {
        slice.get_unchecked(self)
    }
}

impl<Param: ParallelParam> ParallelSliceIndex<Param> for Range<usize> {
    type Output<'a> = ParallelSlice<'a, Param>;

    open spec fn in_bounds(self, len: nat) -> bool {
        self.start <= self.end <= len
    }

    open spec fn selects(self, rows: Seq<Param>, output: Self::Output<'_>) -> bool {
        &&& output.wf()
        &&& output@ == rows.subrange(self.start as int, self.end as int)
    }

    fn get<'a>(self, slice: &ParallelSlice<'a, Param>) -> (output: Option<Self::Output<'a>>) {
        if self.start > self.end || self.end > slice.len() {
            return None;
        }
        Some(slice.narrow(self.start, self.end))
    }

    fn index<'a>(self, slice: &ParallelSlice<'a, Param>) -> (output: Self::Output<'a>) {
        slice.narrow(self.start, self.end)
    }
}

impl<Param: ParallelParam> ParallelSliceIndexMut<Param> for usize {
    type Output<'a> = Param::RefMut<'a>;

    open spec fn in_bounds_mut(self, len: nat) -> bool {
        self < len
    }

    open spec fn selects_mut(self, rows: Seq<Param>, output: Self::Output<'_>) -> bool {
        Param::mut_value(output) == rows[self as int]
    }

    open spec fn writes_in_place(self) -> bool {
        true
    }

    open spec fn touches(self, position: int) -> bool {
        position == self
    }

    open spec fn window(self, len: nat) -> (int, int) {
        (self as int, 1)
    }

    open spec fn as_view<'a>(output: Self::Output<'a>) -> Option<ParallelSliceMut<'a, Param>> {
        None
    }

    fn get_mut<'a>(self, slice: ParallelSliceMut<'a, Param>) -> (output: Option<Self::Output<'a>>) {
        if self >= slice.len {
            return None;
        }
        Some(Param::as_mut(slice.storage, slice.start + self))
    }

    fn index_mut<'a>(self, slice: ParallelSliceMut<'a, Param>) -> (output: Self::Output<'a>) {
        Param::as_mut(slice.storage, slice.start + self)
    }
}

impl<Param: ParallelParam> ParallelSliceIndexMut<Param> for Range<usize> {
    type Output<'a> = ParallelSliceMut<'a, Param>;

    open spec fn in_bounds_mut(self, len: nat) -> bool {
        self.start <= self.end <= len
    }

    open spec fn selects_mut(self, rows: Seq<Param>, output: Self::Output<'_>) -> bool {
        &&& output.wf()
        &&& output@ == rows.subrange(self.start as int, self.end as int)
    }

    open spec fn writes_in_place(self) -> bool {
        false
    }

    open spec fn touches(self, position: int) -> bool {
        self.start <= position < self.end
    }

    open spec fn window(self, len: nat) -> (int, int) {
        (self.start as int, self.end - self.start)
    }

    open spec fn as_view<'a>(output: Self::Output<'a>) -> Option<ParallelSliceMut<'a, Param>> {
        Some(output)
    }

    fn get_mut<'a>(self, slice: ParallelSliceMut<'a, Param>) -> (output: Option<Self::Output<'a>>) {
        if self.start > self.end || self.end > slice.len {
            return None;
        }
        Some(self.index_mut(slice))
    }

    fn index_mut<'a>(self, slice: ParallelSliceMut<'a, Param>) -> (output: Self::Output<'a>) {
        let ghost rows = slice@;
        let output = ParallelSliceMut {
            storage: slice.storage,
            start: slice.start + self.start,
            len: self.end - self.start,
        };
        assert(output@ =~= rows.subrange(self.start as int, self.end as int));
        output
    }
}

} // verus!
