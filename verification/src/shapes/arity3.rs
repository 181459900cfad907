//! Records of three fields.
use crate::columns::{
    into_deque, reverse_window, set_value, swap_values, values_mut, window, window_mut,
};
use crate::layout::{field_layout, layout_of, BlockLayout};
use crate::param::{ParallelParam, ParallelParamClone, ParallelParamCopy};
use crate::sealed::Sealed;
use crate::vec::ParallelVec;
use crate::ParallelVecConversionError;
use std::collections::VecDeque;
use vstd::prelude::*;
use vstd::std_specs::convert::TryFromSpecImpl;
use vstd::std_specs::slice::spec_slice_iter;

verus! {

impl<T1, T2, T3> Sealed for (T1, T2, T3) {

}

impl<T1: 'static, T2: 'static, T3: 'static> ParallelParam for (T1, T2, T3) {
    type Storage = (Vec<T1>, Vec<T2>, Vec<T3>);

    type Ref<'a> = (&'a T1, &'a T2, &'a T3);

    type RefMut<'a> = (&'a mut T1, &'a mut T2, &'a mut T3);

    type Slices<'a> = (&'a [T1], &'a [T2], &'a [T3]);

    type SlicesMut<'a> = (&'a mut [T1], &'a mut [T2], &'a mut [T3]);

    type Iters<'a> = (core::slice::Iter<'a, T1>, core::slice::Iter<'a, T2>, core::slice::Iter<'a, T3>);

    type ItersMut<'a> = (core::slice::IterMut<'a, T1>, core::slice::IterMut<'a, T2>, core::slice::IterMut<'a, T3>);

    type Deques = (VecDeque<T1>, VecDeque<T2>, VecDeque<T3>);

    open spec fn fields() -> Seq<BlockLayout> {
        seq![
            layout_of::<T1>(),
            layout_of::<T2>(),
            layout_of::<T3>(),
        ]
    }

    open spec fn aligned(storage: &Self::Storage) -> bool {
        &&& storage.1@.len() == storage.0@.len()
        &&& storage.2@.len() == storage.0@.len()
    }

    open spec fn rows(storage: &Self::Storage) -> Seq<Self> {
        Seq::new(storage.0@.len(), |i: int| (storage.0@[i], storage.1@[i], storage.2@[i]))
    }

    open spec fn deques_aligned(deques: &Self::Deques) -> bool {
        &&& deques.1@.len() == deques.0@.len()
        &&& deques.2@.len() == deques.0@.len()
    }

    open spec fn deques_rows(deques: &Self::Deques) -> Seq<Self> {
        Seq::new(deques.0@.len(), |i: int| (deques.0@[i], deques.1@[i], deques.2@[i]))
    }

    open spec fn ref_value(record: Self::Ref<'_>) -> Self {
        (*record.0, *record.1, *record.2)
    }

    open spec fn ref_of<'a>(value: Self) -> Self::Ref<'a> {
        (&value.0, &value.1, &value.2)
    }

    open spec fn mut_value(record: Self::RefMut<'_>) -> Self {
        (*record.0, *record.1, *record.2)
    }

    open spec fn slices_aligned(slices: Self::Slices<'_>) -> bool {
        &&& slices.1@.len() == slices.0@.len()
        &&& slices.2@.len() == slices.0@.len()
    }

    open spec fn slices_rows(slices: Self::Slices<'_>) -> Seq<Self> {
        Seq::new(slices.0@.len(), |i: int| (slices.0@[i], slices.1@[i], slices.2@[i]))
    }

    open spec fn iters_of<'a>(slices: Self::Slices<'a>) -> Self::Iters<'a> {
        (spec_slice_iter(slices.0), spec_slice_iter(slices.1), spec_slice_iter(slices.2))
    }

    open spec fn slices_mut_aligned(slices: Self::SlicesMut<'_>) -> bool {
        &&& slices.1@.len() == slices.0@.len()
        &&& slices.2@.len() == slices.0@.len()
    }

    open spec fn slices_mut_rows(slices: Self::SlicesMut<'_>) -> Seq<Self> {
        Seq::new(slices.0@.len(), |i: int| (slices.0@[i], slices.1@[i], slices.2@[i]))
    }

    proof fn lemma_ref_of(record: Self::Ref<'_>) {
    }

    proof fn lemma_rows_len(storage: &Self::Storage) {
        assert(storage.0@.len() == storage.0.len());
    }

    fn field_layouts() -> (fields: Vec<BlockLayout>) {
        let mut fields: Vec<BlockLayout> = Vec::with_capacity(3);
        fields.push(field_layout::<T1>());
        fields.push(field_layout::<T2>());
        fields.push(field_layout::<T3>());
        assert(fields@ =~= Self::fields());
        fields
    }

    fn dangling() -> (storage: Self::Storage) {
        let storage = (Vec::new(), Vec::new(), Vec::new());
        assert(Self::rows(&storage) =~= Seq::<Self>::empty());
        storage
    }

    fn allocate(capacity: usize) -> (storage: Self::Storage) {
        let storage = (
            Vec::with_capacity(capacity),
            Vec::with_capacity(capacity),
            Vec::with_capacity(capacity),
        );
        assert(Self::rows(&storage) =~= Seq::<Self>::empty());
        storage
    }

    fn len(storage: &Self::Storage) -> (len: usize) {
        storage.0.len()
    }

    fn get_vec_len(vecs: &Self::Storage) -> (len: Option<usize>) {
        let len = vecs.0.len();
        if vecs.1.len() != len {
            return None;
        }
        if vecs.2.len() != len {
            return None;
        }
        Some(len)
    }

    fn as_ref<'a>(storage: &'a Self::Storage, index: usize) -> (record: Self::Ref<'a>) {
        (&storage.0[index], &storage.1[index], &storage.2[index])
    }

    fn as_mut<'a>(storage: &'a mut Self::Storage, index: usize) -> (record: Self::RefMut<'a>)
        ensures
            Self::rows(final(storage))[index as int] == (*final(record.0), *final(record.1), *final(record.2)),
    {
        (&mut storage.0[index], &mut storage.1[index], &mut storage.2[index])
    }

    fn as_slices<'a>(storage: &'a Self::Storage, start: usize, end: usize) -> (slices:
        Self::Slices<'a>)
        ensures
            slices.0@ == Self::rows(storage).subrange(start as int, end as int).map_values(
                |record: Self| record.0,
            ),
            slices.1@ == Self::rows(storage).subrange(start as int, end as int).map_values(
                |record: Self| record.1,
            ),
            slices.2@ == Self::rows(storage).subrange(start as int, end as int).map_values(
                |record: Self| record.2,
            ),
    {
        let slices = (
            window(&storage.0, start, end),
            window(&storage.1, start, end),
            window(&storage.2, start, end),
        );
        assert(Self::slices_rows(slices) =~= Self::rows(storage).subrange(
            start as int,
            end as int,
        ));
        assert(slices.0@ =~= Self::rows(storage).subrange(start as int, end as int).map_values(
            |record: Self| record.0,
        ));
        assert(slices.1@ =~= Self::rows(storage).subrange(start as int, end as int).map_values(
            |record: Self| record.1,
        ));
        assert(slices.2@ =~= Self::rows(storage).subrange(start as int, end as int).map_values(
            |record: Self| record.2,
        ));
        slices
    }

    fn as_slices_mut<'a>(storage: &'a mut Self::Storage, start: usize, end: usize) -> (slices:
        Self::SlicesMut<'a>)
        ensures
            final(slices.0)@.len() == end - start,
            final(slices.1)@.len() == end - start,
            final(slices.2)@.len() == end - start,
            Self::rows(final(storage)).subrange(start as int, end as int) == Seq::new(
                (end - start) as nat,
                |i: int| (final(slices.0)@[i], final(slices.1)@[i], final(slices.2)@[i]),
            ),
    {
        let slices = (
            window_mut(&mut storage.0, start, end),
            window_mut(&mut storage.1, start, end),
            window_mut(&mut storage.2, start, end),
        );
        assert(Self::slices_mut_rows(slices) =~= Self::rows(old(storage)).subrange(
            start as int,
            end as int,
        ));
        slices
    }

    fn iters<'a>(slices: Self::Slices<'a>) -> (iters: Self::Iters<'a>) {
        (slices.0.iter(), slices.1.iter(), slices.2.iter())
    }

    fn iters_mut<'a>(slices: Self::SlicesMut<'a>) -> (iters: Self::ItersMut<'a>) {
        (values_mut(slices.0), values_mut(slices.1), values_mut(slices.2))
    }

    open spec fn iters_mut_of(slices: Self::SlicesMut<'_>, iters: Self::ItersMut<'_>) -> bool {
        &&& crate::columns::iterates_mut(slices.0@, iters.0)
        &&& crate::columns::iterates_mut(slices.1@, iters.1)
        &&& crate::columns::iterates_mut(slices.2@, iters.2)
    }

    fn into_deques(storage: Self::Storage) -> (deques: Self::Deques) {
        let deques = (into_deque(storage.0), into_deque(storage.1), into_deque(storage.2));
        assert(Self::deques_rows(&deques) =~= Self::rows(&storage));
        deques
    }

    fn deques_len(deques: &Self::Deques) -> (len: usize) {
        deques.0.len()
    }

    fn pop_front(deques: &mut Self::Deques) -> (value: Self) {
        let value = (
            deques.0.pop_front().unwrap(),
            deques.1.pop_front().unwrap(),
            deques.2.pop_front().unwrap(),
        );
        assert(Self::deques_rows(deques) =~= Self::deques_rows(old(deques)).drop_first());
        value
    }

    fn pop_back(deques: &mut Self::Deques) -> (value: Self) {
        let value = (
            deques.0.pop_back().unwrap(),
            deques.1.pop_back().unwrap(),
            deques.2.pop_back().unwrap(),
        );
        assert(Self::deques_rows(deques) =~= Self::deques_rows(old(deques)).drop_last());
        value
    }

    fn push(storage: &mut Self::Storage, value: Self) {
        storage.0.push(value.0);
        storage.1.push(value.1);
        storage.2.push(value.2);
        assert(Self::rows(storage) =~= Self::rows(old(storage)).push(value));
    }

    fn pop(storage: &mut Self::Storage) -> (value: Self) {
        let value = (
            storage.0.pop().unwrap(),
            storage.1.pop().unwrap(),
            storage.2.pop().unwrap(),
        );
        assert(Self::rows(storage) =~= Self::rows(old(storage)).drop_last());
        value
    }

    fn insert(storage: &mut Self::Storage, index: usize, value: Self) {
        storage.0.insert(index, value.0);
        storage.1.insert(index, value.1);
        storage.2.insert(index, value.2);
        assert(Self::rows(storage) =~= Self::rows(old(storage)).insert(index as int, value));
    }

    fn remove(storage: &mut Self::Storage, index: usize) -> (value: Self) {
        let value = (
            storage.0.remove(index),
            storage.1.remove(index),
            storage.2.remove(index),
        );
        assert(Self::rows(storage) =~= Self::rows(old(storage)).remove(index as int));
        value
    }

    fn swap_remove(storage: &mut Self::Storage, index: usize) -> (value: Self) {
        let value = (
            storage.0.swap_remove(index),
            storage.1.swap_remove(index),
            storage.2.swap_remove(index),
        );
        assert(Self::rows(storage) =~= Self::rows(old(storage)).update(
            index as int,
            Self::rows(old(storage)).last(),
        ).drop_last());
        value
    }

    fn truncate(storage: &mut Self::Storage, len: usize) {
        storage.0.truncate(len);
        storage.1.truncate(len);
        storage.2.truncate(len);
        assert(Self::rows(storage) =~= Self::rows(old(storage)).take(len as int));
    }

    fn set(storage: &mut Self::Storage, index: usize, value: Self) {
        set_value(&mut storage.0, index, value.0);
        set_value(&mut storage.1, index, value.1);
        set_value(&mut storage.2, index, value.2);
        assert(Self::rows(storage) =~= Self::rows(old(storage)).update(index as int, value));
    }

    fn swap(storage: &mut Self::Storage, a: usize, b: usize) {
        swap_values(&mut storage.0, a, b);
        swap_values(&mut storage.1, a, b);
        swap_values(&mut storage.2, a, b);
        assert(Self::rows(storage) =~= Self::rows(old(storage)).update(
            a as int,
            Self::rows(old(storage))[b as int],
        ).update(b as int, Self::rows(old(storage))[a as int]));
    }

    fn swap_with(
        storage: &mut Self::Storage,
        index: usize,
        other: &mut Self::Storage,
        other_index: usize,
    ) {
        core::mem::swap(&mut storage.0[index], &mut other.0[other_index]);
        core::mem::swap(&mut storage.1[index], &mut other.1[other_index]);
        core::mem::swap(&mut storage.2[index], &mut other.2[other_index]);
        assert(Self::rows(storage) =~= Self::rows(old(storage)).update(
            index as int,
            Self::rows(old(other))[other_index as int],
        ));
        assert(Self::rows(other) =~= Self::rows(old(other)).update(
            other_index as int,
            Self::rows(old(storage))[index as int],
        ));
    }

    fn reverse(storage: &mut Self::Storage, start: usize, end: usize) {
        reverse_window(&mut storage.0, start, end);
        reverse_window(&mut storage.1, start, end);
        reverse_window(&mut storage.2, start, end);
        assert(Self::rows(storage) =~= Self::rows(old(storage)).subrange(0, start as int)
            + Self::rows(old(storage)).subrange(start as int, end as int).reverse()
            + Self::rows(old(storage)).subrange(end as int, Self::rows(old(storage)).len() as int));
    }

    fn copy_to(src: &mut Self::Storage, dst: &mut Self::Storage) {
        dst.0.append(&mut src.0);
        dst.1.append(&mut src.1);
        dst.2.append(&mut src.2);
        assert(Self::rows(src) =~= Seq::<Self>::empty());
        assert(Self::rows(dst) =~= Self::rows(old(dst)) + Self::rows(old(src)));
    }
}

impl<T1: Clone + 'static, T2: Clone + 'static, T3: Clone + 'static> ParallelParamClone for (T1, T2, T3) {
    open spec fn cloned_fields(value: Self, copy: Self) -> bool {
        &&& cloned(value.0, copy.0)
        &&& cloned(value.1, copy.1)
        &&& cloned(value.2, copy.2)
    }

    fn read_clone(storage: &Self::Storage, index: usize) -> (copy: Self) {
        (
            storage.0[index].clone(),
            storage.1[index].clone(),
            storage.2[index].clone(),
        )
    }
}

impl<T1: Copy + 'static, T2: Copy + 'static, T3: Copy + 'static> ParallelParamCopy for (T1, T2, T3) {
    fn read(storage: &Self::Storage, index: usize) -> (copy: Self) {
        (storage.0[index], storage.1[index], storage.2[index])
    }
}

impl<T1: 'static, T2: 'static, T3: 'static> TryFromSpecImpl<(Vec<T1>, Vec<T2>, Vec<T3>)> for ParallelVec<(T1, T2, T3)> {
    open spec fn obeys_try_from_spec() -> bool {
        false
    }

    open spec fn try_from_spec(vecs: (Vec<T1>, Vec<T2>, Vec<T3>)) -> Result<Self, Self::Error> {
        arbitrary()
    }
}

impl<T1: 'static, T2: 'static, T3: 'static> TryFrom<(Vec<T1>, Vec<T2>, Vec<T3>)> for ParallelVec<(T1, T2, T3)> {
    type Error = ParallelVecConversionError;

    /// A container that holds the records of columns of one length, with no
    /// room to spare, or the error that says that the columns differ in length.
    fn try_from(vecs: (Vec<T1>, Vec<T2>, Vec<T3>)) -> (converted: Result<Self, Self::Error>)
        ensures
            converted is Ok <==> <(T1, T2, T3) as ParallelParam>::aligned(&vecs),
            converted matches Ok(vec) ==> vec.wf() && vec@ == <(T1, T2, T3) as ParallelParam>::rows(&vecs)
                && vec.spec_capacity() == vec@.len(),
            converted matches Err(error) ==> error == ParallelVecConversionError::UnevenLengths,
    {
        ParallelVec::from_vecs(vecs)
    }
}

} // verus!
