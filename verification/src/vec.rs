//! The owning, growable container.
use crate::columns::reverse_slice;
use crate::growth::{
    grow_to, grown_capacity, lemma_grown_capacity_fits, lemma_power_of_two_at_least,
    power_of_two_at_least,
};
use crate::iter::{IntoIter, Iter, IterMut};
use crate::param::{ParallelParam, ParallelParamClone, ParallelParamCopy};
use crate::permute::{is_order_of, selected, window_of, with_window};
use crate::slice::{
    frame_kept, ParallelSlice, ParallelSliceIndex, ParallelSliceIndexMut, ParallelSliceMut,
};
use crate::sort::{
    is_comparison_of, is_key_of, sort_window_by, sort_window_by_key, sort_window_unstable_by,
    sort_window_unstable_by_key, sorts, sorts_by_key, sorts_stably, sorts_stably_by_key,
};
use crate::ParallelVecConversionError;
use core::cmp::Ordering;
use vstd::prelude::*;
use vstd::std_specs::cmp::{PartialEqSpec, PartialEqSpecImpl};
use vstd::std_specs::convert::FromSpecImpl;

verus! {

/// A growable sequence of records of one shape, stored column by column.
///
/// The view of a `ParallelVec` is the sequence of its records. Its capacity is the
/// number of records it holds room for; it changes only as [`ParallelVec::reserve`],
/// [`ParallelVec::shrink_to`] and the operations built on them say.
pub struct ParallelVec<Param: ParallelParam> {
    storage: Param::Storage,
    capacity: usize,
}

impl<Param: ParallelParam> View for ParallelVec<Param> {
    type V = Seq<Param>;

    closed spec fn view(&self) -> Seq<Param> {
        Param::rows(&self.storage)
    }
}

/// `n` copies of `rows`, one after the other.
pub open spec fn repeated<Param>(rows: Seq<Param>, n: nat) -> Seq<Param>
    decreases n,
{
    if n == 0 {
        Seq::empty()
    } else {
        repeated(rows, (n - 1) as nat) + rows
    }
}

impl<Param: ParallelParam> ParallelVec<Param> {
    /// The invariant of the container: its columns are aligned and hold no more
    /// records than its capacity.
    pub closed spec fn wf(&self) -> bool {
        &&& Param::aligned(&self.storage)
        &&& Param::rows(&self.storage).len() <= self.capacity
    }

    /// Whether the columns of the container are aligned, as those of every
    /// well-formed container are.
    pub closed spec fn aligned(&self) -> bool {
        Param::aligned(&self.storage)
    }

    /// The number of records that the container holds room for.
    pub closed spec fn spec_capacity(&self) -> usize {
        self.capacity
    }

    /// The number of records.
    pub open spec fn spec_len(&self) -> usize {
        self@.len() as usize
    }

    /// Whether room for `additional` more records can be reserved: their number
    /// can be counted, and where the container has to grow, so can its new
    /// capacity.
    pub open spec fn can_reserve(&self, additional: nat) -> bool {
        &&& self@.len() + additional <= usize::MAX
        &&& self@.len() + additional > self.spec_capacity() ==> power_of_two_at_least(
            self@.len() + additional,
        ) <= usize::MAX
    }

    /// The capacity after room for `additional` more records was reserved.
    pub open spec fn reserved_capacity(&self, additional: nat) -> nat {
        if self@.len() + additional > self.spec_capacity() {
            grown_capacity(self@.len() + additional)
        } else {
            self.spec_capacity() as nat
        }
    }

    /// Room can be reserved as long as the records, those to come included, are
    /// no more than half of what a `usize` can count.
    pub proof fn lemma_can_reserve(&self, additional: nat)
        requires
            self@.len() + additional <= usize::MAX / 2,
        ensures
            self.can_reserve(additional),
    {
        lemma_grown_capacity_fits(self@.len() + additional);
    }

    /// A well-formed container holds no more records than its capacity.
    pub proof fn lemma_len_le_capacity(&self)
        requires
            self.wf(),
        ensures
            self@.len() <= self.spec_capacity(),
    {
    }

    /// The columns of a well-formed container are aligned.
    pub proof fn lemma_wf_aligned(&self)
        requires
            self.wf(),
        ensures
            self.aligned(),
    {
    }

    /// An empty container that has reserved no memory.
    pub fn new() -> (vec: Self)
        ensures
            vec.wf(),
            vec@ == Seq::<Param>::empty(),
            vec.spec_capacity() == 0,
    {
        Self::with_capacity(0)
    }

    /// An empty container with room for exactly `capacity` records.
    pub fn with_capacity(capacity: usize) -> (vec: Self)
        ensures
            vec.wf(),
            vec@ == Seq::<Param>::empty(),
            vec.spec_capacity() == capacity,
    {
        ParallelVec {
            storage: if capacity == 0 {
                Param::dangling()
            } else {
                Param::allocate(capacity)
            },
            capacity,
        }
    }

    /// A container that holds the records of aligned columns, with no room to
    /// spare, or the error that says that the columns differ in length.
    pub fn from_vecs(vecs: Param::Storage) -> (converted: Result<Self, ParallelVecConversionError>)
        ensures
            converted is Ok <==> Param::aligned(&vecs),
            converted matches Ok(vec) ==> vec.wf() && vec@ == Param::rows(&vecs)
                && vec.spec_capacity() == vec@.len(),
            converted matches Err(error) ==> error == ParallelVecConversionError::UnevenLengths,
    {
        match Param::get_vec_len(&vecs) {
            Some(len) => Ok(ParallelVec { storage: vecs, capacity: len }),
            None => Err(ParallelVecConversionError::UnevenLengths),
        }
    }

    /// The number of records.
    #[verifier::when_used_as_spec(spec_len)]
    pub fn len(&self) -> (len: usize)
        requires
            self.wf(),
        ensures
            len == self@.len(),
    {
        Param::len(&self.storage)
    }

    /// Whether the container holds no record.
    pub fn is_empty(&self) -> (empty: bool)
        requires
            self.wf(),
        ensures
            empty <==> self@.len() == 0,
    {
        Param::len(&self.storage) == 0
    }

    /// The number of records that the container holds room for.
    #[verifier::when_used_as_spec(spec_capacity)]
    pub fn capacity(&self) -> (capacity: usize)
        ensures
            capacity == self.spec_capacity(),
    {
        self.capacity
    }

    /// Makes room for `additional` more records. Where the capacity does not
    /// suffice, the container grows to the smallest power of two that holds them
    /// all, and to no less than four records.
    pub fn reserve(&mut self, additional: usize)
        requires
            old(self).wf(),
            old(self).can_reserve(additional as nat),
        ensures
            final(self).wf(),
            final(self)@ == old(self)@,
            final(self).spec_capacity() == old(self).reserved_capacity(additional as nat),
            final(self)@.len() + additional <= final(self).spec_capacity(),
    {
        let required = Param::len(&self.storage) + additional;
        if required > self.capacity {
            proof {
                lemma_power_of_two_at_least(required as nat);
            }
            let capacity = grow_to(required);
            self.reallocate(capacity);
        }
    }

    /// Moves the records into fresh columns with room for `capacity` records.
    fn reallocate(&mut self, capacity: usize)
        requires
            old(self).wf(),
            old(self)@.len() <= capacity,
        ensures
            final(self).wf(),
            final(self)@ == old(self)@,
            final(self).spec_capacity() == capacity,
    {
        let mut storage = if capacity == 0 {
            Param::dangling()
        } else {
            Param::allocate(capacity)
        };
        Param::copy_to(&mut self.storage, &mut storage);
        self.storage = storage;
        self.capacity = capacity;
    }

    /// Lowers the capacity to `min_capacity`, or to the number of records where
    /// that is more; does nothing where `min_capacity` is above the capacity.
    pub fn shrink_to(&mut self, min_capacity: usize)
        requires
            old(self).wf(),
        ensures
            final(self).wf(),
            final(self)@ == old(self)@,
            final(self).spec_capacity() == if min_capacity > old(self).spec_capacity() {
                old(self).spec_capacity()
            } else if min_capacity < old(self)@.len() {
                old(self).spec_len()
            } else {
                min_capacity
            },
    {
        if min_capacity > self.capacity {
            return ;
        }
        let len = Param::len(&self.storage);
        let capacity = if len > min_capacity {
            len
        } else {
            min_capacity
        };
        self.reallocate(capacity);
    }

    /// Lowers the capacity to the number of records.
    pub fn shrink_to_fit(&mut self)
        requires
            old(self).wf(),
        ensures
            final(self).wf(),
            final(self)@ == old(self)@,
            final(self).spec_capacity() == old(self)@.len(),
    {
        let len = Param::len(&self.storage);
        self.shrink_to(len);
    }

    /// Appends one record.
    pub fn push(&mut self, value: Param)
        requires
            old(self).wf(),
            old(self).can_reserve(1),
        ensures
            final(self).wf(),
            final(self)@ == old(self)@.push(value),
            final(self).spec_capacity() == old(self).reserved_capacity(1),
    {
        self.reserve(1);
        Param::push(&mut self.storage, value);
    }

    /// Takes the last record out, or returns `None` where there is none.
    pub fn pop(&mut self) -> (value: Option<Param>)
        requires
            old(self).wf(),
        ensures
            final(self).wf(),
            final(self).spec_capacity() == old(self).spec_capacity(),
            old(self)@.len() == 0 ==> value is None && final(self)@ == old(self)@,
            old(self)@.len() > 0 ==> value == Some(old(self)@.last()) && final(self)@ == old(
                self,
            )@.drop_last(),
    {
        if Param::len(&self.storage) == 0 {
            None
        } else {
            Some(Param::pop(&mut self.storage))
        }
    }

    /// Puts `value` at `index` and moves the records from there on up by one.
    pub fn insert(&mut self, index: usize, value: Param)
        requires
            old(self).wf(),
            index <= old(self)@.len(),
            old(self).can_reserve(1),
        ensures
            final(self).wf(),
            final(self)@ == old(self)@.insert(index as int, value),
            final(self).spec_capacity() == old(self).reserved_capacity(1),
    {
        self.reserve(1);
        Param::insert(&mut self.storage, index, value);
    }

    /// Takes the record at `index` out and moves the records after it down by
    /// one, or returns `None` where `index` is out of bounds.
    pub fn remove(&mut self, index: usize) -> (value: Option<Param>)
        requires
            old(self).wf(),
        ensures
            final(self).wf(),
            final(self).spec_capacity() == old(self).spec_capacity(),
            index >= old(self)@.len() ==> value is None && final(self)@ == old(self)@,
            index < old(self)@.len() ==> value == Some(old(self)@[index as int]) && final(self)@
                == old(self)@.remove(index as int),
    {
        if index >= Param::len(&self.storage) {
            return None;
        }
        Some(Param::remove(&mut self.storage, index))
    }

    /// Takes the record at `index` out and puts the last record in its place.
    /// This does not keep the order of the records, and takes constant time.
    pub fn swap_remove(&mut self, index: usize) -> (value: Param)
        requires
            old(self).wf(),
            index < old(self)@.len(),
        ensures
            final(self).wf(),
            final(self).spec_capacity() == old(self).spec_capacity(),
            value == old(self)@[index as int],
            final(self)@ == old(self)@.update(index as int, old(self)@.last()).drop_last(),
    {
        Param::swap_remove(&mut self.storage, index)
    }

    /// Moves all records of `other` to the end of `self` and leaves `other` empty,
    /// with the capacity it had.
    pub fn append(&mut self, other: &mut ParallelVec<Param>)
        requires
            old(self).wf(),
            old(other).wf(),
            old(self).can_reserve(old(other)@.len()),
        ensures
            final(self).wf(),
            final(other).wf(),
            final(self)@ == old(self)@ + old(other)@,
            final(other)@ == Seq::<Param>::empty(),
            final(self).spec_capacity() == old(self).reserved_capacity(old(other)@.len()),
            final(other).spec_capacity() == old(other).spec_capacity(),
    {
        let additional = Param::len(&other.storage);
        self.reserve(additional);
        Param::copy_to(&mut other.storage, &mut self.storage);
    }

    /// Appends all of `values`, in order. Room for them is reserved at once.
    pub fn extend(&mut self, values: Vec<Param>)
        requires
            old(self).wf(),
            old(self).can_reserve(values@.len()),
        ensures
            final(self).wf(),
            final(self)@ == old(self)@ + values@,
            final(self).spec_capacity() == old(self).reserved_capacity(values@.len()),
    {
        let mut values = values;
        let ghost all = values@;
        let count = values.len();
        self.reserve(count);
        reverse_slice(values.as_mut_slice());
        let mut moved: usize = 0;
        while moved < count
            invariant
                self.wf(),
                moved <= count == all.len(),
                values@ == all.reverse().take(count - moved),
                self@ == old(self)@ + all.take(moved as int),
                self.spec_capacity() == old(self).reserved_capacity(all.len()),
                old(self)@.len() + count <= self.spec_capacity(),
            decreases count - moved,
        {
            let value = values.pop().unwrap();
            assert(value == all[moved as int]);
            Param::push(&mut self.storage, value);
            moved = moved + 1;
        }
        assert(all.take(all.len() as int) =~= all);
    }

    /// Keeps the first `len` records and drops the rest; does nothing where the
    /// container holds no more than `len` records. The capacity stays.
    pub fn truncate(&mut self, len: usize)
        requires
            old(self).wf(),
        ensures
            final(self).wf(),
            final(self)@ == if len < old(self)@.len() {
                old(self)@.take(len as int)
            } else {
                old(self)@
            },
            final(self).spec_capacity() == old(self).spec_capacity(),
    {
        if Param::len(&self.storage) <= len {
            return ;
        }
        Param::truncate(&mut self.storage, len);
    }

    /// Drops all records and keeps the capacity.
    pub fn clear(&mut self)
        requires
            old(self).wf(),
        ensures
            final(self).wf(),
            final(self)@ == Seq::<Param>::empty(),
            final(self).spec_capacity() == old(self).spec_capacity(),
    {
        self.truncate(0);
    }

    /// A shared view of all records.
    pub fn as_slice(&self) -> (slice: ParallelSlice<'_, Param>)
        requires
            self.wf(),
        ensures
            slice.wf(),
            slice@ == self@,
    {
        let len = Param::len(&self.storage);
        let slice = ParallelSlice::from_raw_parts(&self.storage, 0, len);
        assert(slice@ =~= self@);
        slice
    }

    /// A view of all records through which they can be changed. When the view
    /// ends, the container holds what the view's columns hold; it is well-formed
    /// where they are aligned and hold as many records as before.
    pub fn as_mut_slice(&mut self) -> (slice: ParallelSliceMut<'_, Param>)
        requires
            old(self).wf(),
        ensures
            slice.wf(),
            slice@ == old(self)@,
            slice.start == 0,
            slice.len == old(self)@.len(),
            Param::rows(&*slice.storage) == old(self)@,
            final(self)@ == Param::rows(final(slice.storage)),
            final(self).spec_capacity() == old(self).spec_capacity(),
            Param::aligned(final(slice.storage)) && Param::rows(final(slice.storage)).len()
                == old(self)@.len() ==> final(self).wf(),
    {
        let len = Param::len(&self.storage);
        let slice = ParallelSliceMut::from_raw_parts(&mut self.storage, 0, len);
        assert(slice@ =~= Param::rows(&*slice.storage));
        slice
    }

    /// The columns, one slice per field.
    pub fn as_slices(&self) -> (slices: Param::Slices<'_>)
        requires
            self.wf(),
        ensures
            Param::slices_aligned(slices),
            Param::slices_rows(slices) == self@,
    {
        let len = Param::len(&self.storage);
        let slices = Param::as_slices(&self.storage, 0, len);
        assert(self@.subrange(0, len as int) =~= self@);
        slices
    }

    /// The columns, one mutable slice per field. Whatever is written through
    /// them, the container stays well-formed and keeps its length.
    pub fn as_slices_mut(&mut self) -> (slices: Param::SlicesMut<'_>)
        requires
            old(self).wf(),
        ensures
            Param::slices_mut_aligned(slices),
            Param::slices_mut_rows(slices) == old(self)@,
            final(self).wf(),
            final(self).spec_capacity() == old(self).spec_capacity(),
            final(self)@.len() == old(self)@.len(),
    {
        let len = Param::len(&self.storage);
        assert(self@.subrange(0, len as int) =~= self@);
        Param::as_slices_mut(&mut self.storage, 0, len)
    }

    /// What `index` selects, or `None` where it is out of bounds.
    pub fn get<'b, I: ParallelSliceIndex<Param>>(&'b self, index: I) -> (output: Option<
        I::Output<'b>,
    >)
        requires
            self.wf(),
        ensures
            output is Some <==> index.in_bounds(self@.len()),
            output matches Some(selected) ==> index.selects(self@, selected),
    {
        index.get(&self.as_slice())
    }

    /// What `index` selects.
    pub fn index<'b, I: ParallelSliceIndex<Param>>(&'b self, index: I) -> (output: I::Output<'b>)
        requires
            self.wf(),
            index.in_bounds(self@.len()),
        ensures
            index.selects(self@, output),
    {
        index.index(&self.as_slice())
    }

    /// What `index` selects, for writing, or `None` where it is out of bounds;
    /// then nothing changes.
    pub fn get_mut<'b, I: ParallelSliceIndexMut<Param>>(&'b mut self, index: I) -> (output:
        Option<I::Output<'b>>)
        requires
            old(self).wf(),
        ensures
            output is Some <==> index.in_bounds_mut(old(self)@.len()),
            output matches Some(selected) ==> index.selects_mut(old(self)@, selected),
            output is None ==> final(self).wf() && final(self)@ == old(self)@,
            output matches Some(selected) ==> (I::as_view(selected) matches Some(view) ==> {
                &&& view.start == index.window(old(self)@.len()).0
                &&& view.len == index.window(old(self)@.len()).1
                &&& view.rows() == old(self)@
                &&& final(self)@ == Param::rows(final(view.storage))
                &&& Param::aligned(final(view.storage)) && Param::rows(final(view.storage)).len()
                    == old(self)@.len() ==> final(self).wf()
            }),
            final(self).spec_capacity() == old(self).spec_capacity(),
            index.writes_in_place() ==> frame_kept::<Param>(
                old(self)@,
                final(self)@,
                final(self).wf(),
                0,
                |position: int| index.touches(position),
            ),
    {
        index.get_mut(self.as_mut_slice())
    }

    /// What `index` selects, for writing.
    pub fn index_mut<'b, I: ParallelSliceIndexMut<Param>>(&'b mut self, index: I) -> (output:
        I::Output<'b>)
        requires
            old(self).wf(),
            index.in_bounds_mut(old(self)@.len()),
        ensures
            index.selects_mut(old(self)@, output),
            I::as_view(output) matches Some(view) ==> {
                &&& view.start == index.window(old(self)@.len()).0
                &&& view.len == index.window(old(self)@.len()).1
                &&& view.rows() == old(self)@
                &&& final(self)@ == Param::rows(final(view.storage))
                &&& Param::aligned(final(view.storage)) && Param::rows(final(view.storage)).len()
                    == old(self)@.len() ==> final(self).wf()
            },
            final(self).spec_capacity() == old(self).spec_capacity(),
            index.writes_in_place() ==> frame_kept::<Param>(
                old(self)@,
                final(self)@,
                final(self).wf(),
                0,
                |position: int| index.touches(position),
            ),
    {
        index.index_mut(self.as_mut_slice())
    }

    /// The record at `index`.
    pub fn get_unchecked(&self, index: usize) -> (record: Param::Ref<'_>)
        requires
            self.wf(),
            index < self@.len(),
        ensures
            Param::ref_value(record) == self@[index as int],
    {
        Param::as_ref(&self.storage, index)
    }

    /// The record at `index`, for writing. Whatever is written, the container
    /// stays well-formed and all other records stay as they are.
    pub fn get_unchecked_mut(&mut self, index: usize) -> (record: Param::RefMut<'_>)
        requires
            old(self).wf(),
            index < old(self)@.len(),
        ensures
            Param::mut_value(record) == old(self)@[index as int],
            final(self).wf(),
            final(self).spec_capacity() == old(self).spec_capacity(),
            final(self)@.len() == old(self)@.len(),
            forall|k: int|
                0 <= k < old(self)@.len() && k != index ==> final(self)@[k] == old(self)@[k],
    {
        Param::as_mut(&mut self.storage, index)
    }

    /// The first record, or `None` where the container is empty.
    pub fn first(&self) -> (record: Option<Param::Ref<'_>>)
        requires
            self.wf(),
        ensures
            record is Some <==> self@.len() > 0,
            record matches Some(first) ==> Param::ref_value(first) == self@.first(),
    {
        if Param::len(&self.storage) == 0 {
            None
        } else {
            Some(Param::as_ref(&self.storage, 0))
        }
    }

    /// The last record, or `None` where the container is empty.
    pub fn last(&self) -> (record: Option<Param::Ref<'_>>)
        requires
            self.wf(),
        ensures
            record is Some <==> self@.len() > 0,
            record matches Some(last) ==> Param::ref_value(last) == self@.last(),
    {
        let len = Param::len(&self.storage);
        if len == 0 {
            None
        } else {
            Some(Param::as_ref(&self.storage, len - 1))
        }
    }

    /// The first record, for writing, or `None` where the container is empty.
    pub fn first_mut(&mut self) -> (record: Option<Param::RefMut<'_>>)
        requires
            old(self).wf(),
        ensures
            record is Some <==> old(self)@.len() > 0,
            record matches Some(first) ==> Param::mut_value(first) == old(self)@.first(),
            final(self).wf(),
            final(self).spec_capacity() == old(self).spec_capacity(),
            final(self)@.len() == old(self)@.len(),
            forall|k: int| 0 < k < old(self)@.len() ==> final(self)@[k] == old(self)@[k],
    {
        if Param::len(&self.storage) == 0 {
            None
        } else {
            Some(Param::as_mut(&mut self.storage, 0))
        }
    }

    /// The last record, for writing, or `None` where the container is empty.
    pub fn last_mut(&mut self) -> (record: Option<Param::RefMut<'_>>)
        requires
            old(self).wf(),
        ensures
            record is Some <==> old(self)@.len() > 0,
            record matches Some(last) ==> Param::mut_value(last) == old(self)@.last(),
            final(self).wf(),
            final(self).spec_capacity() == old(self).spec_capacity(),
            final(self)@.len() == old(self)@.len(),
            forall|k: int| 0 <= k < old(self)@.len() - 1 ==> final(self)@[k] == old(self)@[k],
    {
        let len = Param::len(&self.storage);
        if len == 0 {
            None
        } else {
            Some(Param::as_mut(&mut self.storage, len - 1))
        }
    }

    /// Puts `value` in place of the record at `index`, which is dropped.
    pub fn set(&mut self, index: usize, value: Param)
        requires
            old(self).wf(),
            index < old(self)@.len(),
        ensures
            final(self).wf(),
            final(self).spec_capacity() == old(self).spec_capacity(),
            final(self)@ == old(self)@.update(index as int, value),
    {
        Param::set(&mut self.storage, index, value);
    }

    /// Exchanges the records at `a` and `b`.
    pub fn swap(&mut self, a: usize, b: usize)
        requires
            old(self).wf(),
            a < old(self)@.len(),
            b < old(self)@.len(),
        ensures
            final(self).wf(),
            final(self).spec_capacity() == old(self).spec_capacity(),
            final(self)@ == old(self)@.update(a as int, old(self)@[b as int]).update(
                b as int,
                old(self)@[a as int],
            ),
    {
        Param::swap(&mut self.storage, a, b);
    }

    /// Exchanges the records of this container with those of `other`, position
    /// by position. Both keep their capacity.
    pub fn swap_with(&mut self, other: &mut ParallelVec<Param>)
        requires
            old(self).wf(),
            old(other).wf(),
            old(self)@.len() == old(other)@.len(),
        ensures
            final(self).wf(),
            final(other).wf(),
            final(self)@ == old(other)@,
            final(other)@ == old(self)@,
            final(self).spec_capacity() == old(self).spec_capacity(),
            final(other).spec_capacity() == old(other).spec_capacity(),
    {
        let mut mine = self.as_mut_slice();
        let mut theirs = other.as_mut_slice();
        let ghost mine_before = mine;
        let ghost theirs_before = theirs;
        mine.swap_with(&mut theirs);
        proof {
            mine.lemma_whole(&mine_before);
            theirs.lemma_whole(&theirs_before);
        }
    }

    /// Reverses the order of the records.
    pub fn reverse(&mut self)
        requires
            old(self).wf(),
        ensures
            final(self).wf(),
            final(self).spec_capacity() == old(self).spec_capacity(),
            final(self)@ == old(self)@.reverse(),
    {
        let len = Param::len(&self.storage);
        Param::reverse(&mut self.storage, 0, len);
        assert(self@ =~= old(self)@.reverse());
    }

    /// Puts what `f` returns in place of every record, asking `f` once for each.
    pub fn fill_with<F: Fn() -> Param>(&mut self, f: F)
        requires
            old(self).wf(),
            call_requires(f, ()),
        ensures
            final(self).wf(),
            final(self).spec_capacity() == old(self).spec_capacity(),
            final(self)@.len() == old(self)@.len(),
            forall|k: int| 0 <= k < final(self)@.len() ==> call_ensures(f, (), final(self)@[k]),
    {
        let mut all = self.as_mut_slice();
        let ghost before = all;
        all.fill_with(f);
        proof {
            all.lemma_whole(&before);
        }
    }

    /// Sorts the records with `compare`, keeping the order of records that are
    /// equal under it. The comparison has to be a total order on the records.
    pub fn sort_by<F: Fn(Param::Ref<'_>, Param::Ref<'_>) -> Ordering>(&mut self, compare: F)
        requires
            old(self).wf(),
            is_comparison_of(compare, old(self)@),
        ensures
            final(self).wf(),
            final(self).spec_capacity() == old(self).spec_capacity(),
            exists|order: Seq<usize>|
                {
                    &&& is_order_of(order, old(self)@)
                    &&& #[trigger] sorts_stably(compare, old(self)@, order)
                    &&& final(self)@ == selected(old(self)@, order)
                },
    {
        let ghost rows = self@;
        let len = Param::len(&self.storage);
        assert(window_of(self@, 0, len) =~= self@);
        sort_window_by::<Param, F>(&mut self.storage, 0, len, compare);
        proof {
            let order = choose|order: Seq<usize>|
                {
                    &&& is_order_of(order, rows)
                    &&& #[trigger] sorts_stably(compare, rows, order)
                    &&& self@ == with_window(rows, 0, selected(rows, order))
                };
            assert(self@ =~= selected(rows, order));
        }
    }

    /// Sorts the records by their keys, keeping the order of records with equal
    /// keys. The order of the keys has to be lawful.
    pub fn sort_by_key<K: Ord, F: Fn(Param::Ref<'_>) -> K>(&mut self, key: F)
        requires
            old(self).wf(),
            is_key_of(key, old(self)@),
        ensures
            final(self).wf(),
            final(self).spec_capacity() == old(self).spec_capacity(),
            exists|order: Seq<usize>|
                {
                    &&& is_order_of(order, old(self)@)
                    &&& #[trigger] sorts_stably_by_key(key, old(self)@, order)
                    &&& final(self)@ == selected(old(self)@, order)
                },
    {
        let ghost rows = self@;
        let len = Param::len(&self.storage);
        assert(window_of(self@, 0, len) =~= self@);
        sort_window_by_key::<Param, K, F>(&mut self.storage, 0, len, key);
        proof {
            let order = choose|order: Seq<usize>|
                {
                    &&& is_order_of(order, rows)
                    &&& #[trigger] sorts_stably_by_key(key, rows, order)
                    &&& self@ == with_window(rows, 0, selected(rows, order))
                };
            assert(self@ =~= selected(rows, order));
        }
    }

    /// Sorts the records with `compare`; records that are equal under it may
    /// change their order. The comparison has to be a total order on the
    /// records.
    pub fn sort_unstable_by<F: Fn(Param::Ref<'_>, Param::Ref<'_>) -> Ordering>(&mut self, compare: F)
        requires
            old(self).wf(),
            is_comparison_of(compare, old(self)@),
        ensures
            final(self).wf(),
            final(self).spec_capacity() == old(self).spec_capacity(),
            exists|order: Seq<usize>|
                {
                    &&& is_order_of(order, old(self)@)
                    &&& #[trigger] sorts(compare, old(self)@, order)
                    &&& final(self)@ == selected(old(self)@, order)
                },
    {
        let ghost rows = self@;
        let len = Param::len(&self.storage);
        assert(window_of(self@, 0, len) =~= self@);
        sort_window_unstable_by::<Param, F>(&mut self.storage, 0, len, compare);
        proof {
            let order = choose|order: Seq<usize>|
                {
                    &&& is_order_of(order, rows)
                    &&& #[trigger] sorts(compare, rows, order)
                    &&& self@ == with_window(rows, 0, selected(rows, order))
                };
            assert(self@ =~= selected(rows, order));
        }
    }

    /// Sorts the records by their keys; records with equal keys may change their
    /// order. The order of the keys has to be lawful.
    pub fn sort_unstable_by_key<K: Ord, F: Fn(Param::Ref<'_>) -> K>(&mut self, key: F)
        requires
            old(self).wf(),
            is_key_of(key, old(self)@),
        ensures
            final(self).wf(),
            final(self).spec_capacity() == old(self).spec_capacity(),
            exists|order: Seq<usize>|
                {
                    &&& is_order_of(order, old(self)@)
                    &&& #[trigger] sorts_by_key(key, old(self)@, order)
                    &&& final(self)@ == selected(old(self)@, order)
                },
    {
        let ghost rows = self@;
        let len = Param::len(&self.storage);
        assert(window_of(self@, 0, len) =~= self@);
        sort_window_unstable_by_key::<Param, K, F>(&mut self.storage, 0, len, key);
        proof {
            let order = choose|order: Seq<usize>|
                {
                    &&& is_order_of(order, rows)
                    &&& #[trigger] sorts_by_key(key, rows, order)
                    &&& self@ == with_window(rows, 0, selected(rows, order))
                };
            assert(self@ =~= selected(rows, order));
        }
    }

    /// An iterator over the records.
    pub fn iter(&self) -> (iter: Iter<'_, Param>)
        requires
            self.wf(),
        ensures
            iter.wf(),
            iter@ == self@,
    {
        let len = Param::len(&self.storage);
        assert(self@.subrange(0, len as int) =~= self@);
        Iter::new(&self.storage, 0, len)
    }

    /// An iterator over the records through which they can be changed. When the
    /// iterator ends, the container holds what the iterator's columns hold; it
    /// is well-formed where they are aligned and hold as many records as before.
    pub fn iter_mut(&mut self) -> (iter: IterMut<'_, Param>)
        requires
            old(self).wf(),
        ensures
            iter.wf(),
            iter@ == old(self)@,
            iter.remaining.start == 0,
            iter.remaining.len == old(self)@.len(),
            Param::rows(&*iter.remaining.storage) == old(self)@,
            final(self)@ == Param::rows(final(iter.remaining.storage)),
            final(self).spec_capacity() == old(self).spec_capacity(),
            Param::aligned(final(iter.remaining.storage)) && Param::rows(
                final(iter.remaining.storage),
            ).len() == old(self)@.len() ==> final(self).wf(),
    {
        IterMut { remaining: self.as_mut_slice() }
    }

    /// An iterator that takes the records over and hands them out, first to
    /// last.
    pub fn into_iter(self) -> (iter: IntoIter<Param>)
        requires
            self.wf(),
        ensures
            iter.wf(),
            iter@ == self@,
    {
        IntoIter::new(self.storage)
    }

    /// One iterator of the standard library per column.
    pub fn iters(&self) -> (iters: Param::Iters<'_>)
        requires
            self.wf(),
        ensures
            exists|slices: Param::Slices<'_>|
                {
                    &&& Param::slices_aligned(slices)
                    &&& Param::slices_rows(slices) == self@
                    &&& iters == #[trigger] Param::iters_of(slices)
                },
    {
        Param::iters(self.as_slices())
    }

    /// One iterator of the standard library per column, which hands out mutable
    /// references to its values. Whatever is written through them, the
    /// container stays well-formed and keeps its length.
    pub fn iters_mut(&mut self) -> (iters: Param::ItersMut<'_>)
        requires
            old(self).wf(),
        ensures
            exists|slices: Param::SlicesMut<'_>|
                {
                    &&& Param::slices_mut_aligned(slices)
                    &&& Param::slices_mut_rows(slices) == old(self)@
                    &&& #[trigger] Param::iters_mut_of(slices, iters)
                },
            final(self).wf(),
            final(self).spec_capacity() == old(self).spec_capacity(),
            final(self)@.len() == old(self)@.len(),
    {
        let len = Param::len(&self.storage);
        assert(self@.subrange(0, len as int) =~= self@);
        Param::iters_mut(Param::as_slices_mut(&mut self.storage, 0, len))
    }
}

impl<Param: ParallelParam> Default for ParallelVec<Param> {
    /// An empty container that has reserved no memory.
    fn default() -> (vec: Self)
        ensures
            vec.wf(),
            vec@ == Seq::<Param>::empty(),
            vec.spec_capacity() == 0,
    {
        Self::new()
    }
}

impl<Param: ParallelParam + Clone> ParallelVec<Param> {
    /// Puts a clone of `value` in place of every record.
    pub fn fill(&mut self, value: Param)
        requires
            old(self).wf(),
        ensures
            final(self).wf(),
            final(self).spec_capacity() == old(self).spec_capacity(),
            final(self)@.len() == old(self)@.len(),
            forall|k: int| 0 <= k < final(self)@.len() ==> cloned(value, final(self)@[k]),
    {
        let mut all = self.as_mut_slice();
        let ghost before = all;
        all.fill(value);
        proof {
            all.lemma_whole(&before);
        }
    }
}

impl<Param: ParallelParam> FromSpecImpl<Vec<Param>> for ParallelVec<Param> {
    open spec fn obeys_from_spec() -> bool {
        false
    }

    open spec fn from_spec(value: Vec<Param>) -> Self {
        arbitrary()
    }
}

impl<Param: ParallelParam> From<Vec<Param>> for ParallelVec<Param> {
    /// A container that holds the records of `value`, in order, with no room to
    /// spare.
    fn from(value: Vec<Param>) -> (vec: Self)
        ensures
            vec.wf(),
            vec@ == value@,
            vec.spec_capacity() == value@.len(),
    {
        let mut vec = Self::with_capacity(value.len());
        vec.extend(value);
        vec
    }
}

impl<Param: ParallelParamCopy> ParallelVec<Param> {
    /// A container that holds the records of this one `n` times over, with no
    /// room to spare.
    pub fn repeat(&self, n: usize) -> (all: ParallelVec<Param>)
        requires
            self.wf(),
            n * self@.len() <= usize::MAX,
        ensures
            all.wf(),
            all@ == repeated(self@, n as nat),
            all.spec_capacity() == n * self@.len(),
    {
        let len = Param::len(&self.storage);
        assert(n * len <= usize::MAX);
        let mut all = ParallelVec::with_capacity(n * len);
        let mut round: usize = 0;
        while round < n
            invariant
                self.wf(),
                all.wf(),
                round <= n,
                len == self@.len(),
                n * len <= usize::MAX,
                all.spec_capacity() == n * len,
                all@ == repeated(self@, round as nat),
                all@.len() == round * len,
            decreases n - round,
        {
            let mut index: usize = 0;
            assert((round + 1) * len <= n * len) by (nonlinear_arith)
                requires
                    round < n,
            ;
            assert((round + 1) * len == round * len + len) by (nonlinear_arith);
            while index < len
                invariant
                    self.wf(),
                    all.wf(),
                    index <= len == self@.len(),
                    round * len + len <= n * len <= usize::MAX,
                    all.spec_capacity() == n * len,
                    all@ == repeated(self@, round as nat) + self@.take(index as int),
                    repeated(self@, round as nat).len() == round * len,
                decreases len - index,
            {
                let value = Param::read(&self.storage, index);
                Param::push(&mut all.storage, value);
                index = index + 1;
                assert(all@ =~= repeated(self@, round as nat) + self@.take(index as int));
            }
            assert(self@.take(len as int) =~= self@);
            round = round + 1;
        }
        all
    }
}

impl<Param: ParallelParamClone> Clone for ParallelVec<Param> {
    /// A container that holds a clone of every record, in order, with no room to
    /// spare.
    fn clone(&self) -> (copy: Self)
        ensures
            self.wf() ==> {
                &&& copy.wf()
                &&& copy@.len() == self@.len()
                &&& copy.spec_capacity() == self@.len()
                &&& forall|k: int|
                    0 <= k < self@.len() ==> Param::cloned_fields(self@[k], #[trigger] copy@[k])
            },
    {
        let len = match Param::get_vec_len(&self.storage) {
            Some(len) => len,
            None => { return Self::new(); },
        };
        let mut copy = Self::with_capacity(len);
        let mut index: usize = 0;
        while index < len
            invariant
                Param::aligned(&self.storage),
                copy.wf(),
                index <= len == self@.len(),
                copy.spec_capacity() == len,
                copy@.len() == index,
                forall|k: int|
                    0 <= k < index ==> Param::cloned_fields(self@[k], #[trigger] copy@[k]),
            decreases len - index,
        {
            let value = Param::read_clone(&self.storage, index);
            Param::push(&mut copy.storage, value);
            index = index + 1;
        }
        copy
    }
}

impl<Param: ParallelParam> PartialEqSpecImpl for ParallelVec<Param> where
    for <'x>Param::Ref<'x>: PartialEq,
 {
    open spec fn obeys_eq_spec() -> bool {
        <Param::Ref<'static> as PartialEqSpec>::obeys_eq_spec()
    }

    open spec fn eq_spec(&self, other: &Self) -> bool {
        &&& self.aligned()
        &&& other.aligned()
        &&& self@.len() == other@.len()
        &&& forall|k: int|
            0 <= k < self@.len() ==> #[trigger] Param::ref_of(self@[k]).eq_spec(
                &Param::ref_of(other@[k]),
            )
    }
}

impl<Param: ParallelParam> PartialEq for ParallelVec<Param> where
    for <'x>Param::Ref<'x>: PartialEq,
 {
    /// Whether both containers hold as many records and the fields of their
    /// records are equal, position by position.
    fn eq(&self, other: &Self) -> (equal: bool) {
        let len = match Param::get_vec_len(&self.storage) {
            Some(len) => len,
            None => { return false; },
        };
        match Param::get_vec_len(&other.storage) {
            Some(other_len) => {
                if other_len != len {
                    return false;
                }
            },
            None => { return false; },
        }
        let mut index: usize = 0;
        while index < len
            invariant
                Param::aligned(&self.storage),
                Param::aligned(&other.storage),
                index <= len == self@.len() == other@.len(),
                <Param::Ref<'static> as PartialEqSpec>::obeys_eq_spec() ==> forall|k: int|
                    0 <= k < index ==> #[trigger] Param::ref_of(self@[k]).eq_spec(
                        &Param::ref_of(other@[k]),
                    ),
            decreases len - index,
        {
            let mine = Param::as_ref(&self.storage, index);
            let theirs = Param::as_ref(&other.storage, index);
            proof {
                Param::lemma_ref_of(mine);
                Param::lemma_ref_of(theirs);
            }
            if !(mine == theirs) {
                return false;
            }
            index = index + 1;
        }
        true
    }
}

impl<Param: ParallelParam> Eq for ParallelVec<Param> where for <'x>Param::Ref<'x>: Eq {

}

} // verus!
