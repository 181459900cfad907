//! Records of ten fields.
use crate::columns::{
    into_deque, reverse_window, set_value, swap_values, values_mut, window, window_mut,
};
use crate::layout::{field_layout, layout_of, BlockLayout};
use crate::param::{ParallelParam, ParallelParamClone, ParallelParamCopy};
use crate::sealed::Sealed;
use crate::vec::ParallelVec;
use crate::ParallelVecConversionError;
use std::collections::VecDeque;
use vstd::prelude::*;
use vstd::std_specs::convert::TryFromSpecImpl;
use vstd::std_specs::slice::spec_slice_iter;

verus! {

impl<T1, T2, T3, T4, T5, T6, T7, T8, T9, T10> Sealed for (T1, T2, T3, T4, T5, T6, T7, T8, T9, T10) {

}

impl<T1: 'static, T2: 'static, T3: 'static, T4: 'static, T5: 'static, T6: 'static, T7: 'static, T8: 'static, T9: 'static, T10: 'static> ParallelParam for (T1, T2, T3, T4, T5, T6, T7, T8, T9, T10) {
    type Storage = (Vec<T1>, Vec<T2>, Vec<T3>, Vec<T4>, Vec<T5>, Vec<T6>, Vec<T7>, Vec<T8>, Vec<T9>, Vec<T10>);

    type Ref<'a> = (&'a T1, &'a T2, &'a T3, &'a T4, &'a T5, &'a T6, &'a T7, &'a T8, &'a T9, &'a T10);

    type RefMut<'a> = (
        &'a mut T1,
        &'a mut T2,
        &'a mut T3,
        &'a mut T4,
        &'a mut T5,
        &'a mut T6,
        &'a mut T7,
        &'a mut T8,
        &'a mut T9,
        &'a mut T10,
    );

    type Slices<'a> = (
        &'a [T1],
        &'a [T2],
        &'a [T3],
        &'a [T4],
        &'a [T5],
        &'a [T6],
        &'a [T7],
        &'a [T8],
        &'a [T9],
        &'a [T10],
    );

    type SlicesMut<'a> = (
        &'a mut [T1],
        &'a mut [T2],
        &'a mut [T3],
        &'a mut [T4],
        &'a mut [T5],
        &'a mut [T6],
        &'a mut [T7],
        &'a mut [T8],
        &'a mut [T9],
        &'a mut [T10],
    );

    type Iters<'a> = (
        core::slice::Iter<'a, T1>,
        core::slice::Iter<'a, T2>,
        core::slice::Iter<'a, T3>,
        core::slice::Iter<'a, T4>,
        core::slice::Iter<'a, T5>,
        core::slice::Iter<'a, T6>,
        core::slice::Iter<'a, T7>,
        core::slice::Iter<'a, T8>,
        core::slice::Iter<'a, T9>,
        core::slice::Iter<'a, T10>,
    );

    type ItersMut<'a> = (
        core::slice::IterMut<'a, T1>,
        core::slice::IterMut<'a, T2>,
        core::slice::IterMut<'a, T3>,
        core::slice::IterMut<'a, T4>,
        core::slice::IterMut<'a, T5>,
        core::slice::IterMut<'a, T6>,
        core::slice::IterMut<'a, T7>,
        core::slice::IterMut<'a, T8>,
        core::slice::IterMut<'a, T9>,
        core::slice::IterMut<'a, T10>,
    );

    type Deques = (
        VecDeque<T1>,
        VecDeque<T2>,
        VecDeque<T3>,
        VecDeque<T4>,
        VecDeque<T5>,
        VecDeque<T6>,
        VecDeque<T7>,
        VecDeque<T8>,
        VecDeque<T9>,
        VecDeque<T10>,
    );

    open spec fn fields() -> Seq<BlockLayout> {
        seq![
            layout_of::<T1>(),
            layout_of::<T2>(),
            layout_of::<T3>(),
            layout_of::<T4>(),
            layout_of::<T5>(),
            layout_of::<T6>(),
            layout_of::<T7>(),
            layout_of::<T8>(),
            layout_of::<T9>(),
            layout_of::<T10>(),
        ]
    }

    open spec fn aligned(storage: &Self::Storage) -> bool {
        &&& storage.1@.len() == storage.0@.len()
        &&& storage.2@.len() == storage.0@.len()
        &&& storage.3@.len() == storage.0@.len()
        &&& storage.4@.len() == storage.0@.len()
        &&& storage.5@.len() == storage.0@.len()
        &&& storage.6@.len() == storage.0@.len()
        &&& storage.7@.len() == storage.0@.len()
        &&& storage.8@.len() == storage.0@.len()
        &&& storage.9@.len() == storage.0@.len()
    }

    open spec fn rows(storage: &Self::Storage) -> Seq<Self> {
        Seq::new(storage.0@.len(), |i: int| (
            storage.0@[i],
            storage.1@[i],
            storage.2@[i],
            storage.3@[i],
            storage.4@[i],
            storage.5@[i],
            storage.6@[i],
            storage.7@[i],
            storage.8@[i],
            storage.9@[i],
        ))
    }

    open spec fn deques_aligned(deques: &Self::Deques) -> bool {
        &&& deques.1@.len() == deques.0@.len()
        &&& deques.2@.len() == deques.0@.len()
        &&& deques.3@.len() == deques.0@.len()
        &&& deques.4@.len() == deques.0@.len()
        &&& deques.5@.len() == deques.0@.len()
        &&& deques.6@.len() == deques.0@.len()
        &&& deques.7@.len() == deques.0@.len()
        &&& deques.8@.len() == deques.0@.len()
        &&& deques.9@.len() == deques.0@.len()
    }

    open spec fn deques_rows(deques: &Self::Deques) -> Seq<Self> {
        Seq::new(deques.0@.len(), |i: int| (
            deques.0@[i],
            deques.1@[i],
            deques.2@[i],
            deques.3@[i],
            deques.4@[i],
            deques.5@[i],
            deques.6@[i],
            deques.7@[i],
            deques.8@[i],
            deques.9@[i],
        ))
    }

    open spec fn ref_value(record: Self::Ref<'_>) -> Self {
        (
            *record.0,
            *record.1,
            *record.2,
            *record.3,
            *record.4,
            *record.5,
            *record.6,
            *record.7,
            *record.8,
            *record.9,
        )
    }

    open spec fn ref_of<'a>(value: Self) -> Self::Ref<'a> {
        (
            &value.0,
            &value.1,
            &value.2,
            &value.3,
            &value.4,
            &value.5,
            &value.6,
            &value.7,
            &value.8,
            &value.9,
        )
    }

    open spec fn mut_value(record: Self::RefMut<'_>) -> Self {
        (
            *record.0,
            *record.1,
            *record.2,
            *record.3,
            *record.4,
            *record.5,
            *record.6,
            *record.7,
            *record.8,
            *record.9,
        )
    }

    open spec fn slices_aligned(slices: Self::Slices<'_>) -> bool {
        &&& slices.1@.len() == slices.0@.len()
        &&& slices.2@.len() == slices.0@.len()
        &&& slices.3@.len() == slices.0@.len()
        &&& slices.4@.len() == slices.0@.len()
        &&& slices.5@.len() == slices.0@.len()
        &&& slices.6@.len() == slices.0@.len()
        &&& slices.7@.len() == slices.0@.len()
        &&& slices.8@.len() == slices.0@.len()
        &&& slices.9@.len() == slices.0@.len()
    }

    open spec fn slices_rows(slices: Self::Slices<'_>) -> Seq<Self> {
        Seq::new(slices.0@.len(), |i: int| (
            slices.0@[i],
            slices.1@[i],
            slices.2@[i],
            slices.3@[i],
            slices.4@[i],
            slices.5@[i],
            slices.6@[i],
            slices.7@[i],
            slices.8@[i],
            slices.9@[i],
        ))
    }

    open spec fn iters_of<'a>(slices: Self::Slices<'a>) -> Self::Iters<'a> {
        (
            spec_slice_iter(slices.0),
            spec_slice_iter(slices.1),
            spec_slice_iter(slices.2),
            spec_slice_iter(slices.3),
            spec_slice_iter(slices.4),
            spec_slice_iter(slices.5),
            spec_slice_iter(slices.6),
            spec_slice_iter(slices.7),
            spec_slice_iter(slices.8),
            spec_slice_iter(slices.9),
        )
    }

    open spec fn slices_mut_aligned(slices: Self::SlicesMut<'_>) -> bool {
        &&& slices.1@.len() == slices.0@.len()
        &&& slices.2@.len() == slices.0@.len()
        &&& slices.3@.len() == slices.0@.len()
        &&& slices.4@.len() == slices.0@.len()
        &&& slices.5@.len() == slices.0@.len()
        &&& slices.6@.len() == slices.0@.len()
        &&& slices.7@.len() == slices.0@.len()
        &&& slices.8@.len() == slices.0@.len()
        &&& slices.9@.len() == slices.0@.len()
    }

    open spec fn slices_mut_rows(slices: Self::SlicesMut<'_>) -> Seq<Self> {
        Seq::new(slices.0@.len(), |i: int| (
            slices.0@[i],
            slices.1@[i],
            slices.2@[i],
            slices.3@[i],
            slices.4@[i],
            slices.5@[i],
            slices.6@[i],
            slices.7@[i],
            slices.8@[i],
            slices.9@[i],
        ))
    }

    proof fn lemma_ref_of(record: Self::Ref<'_>) {
    }

    proof fn lemma_rows_len(storage: &Self::Storage) {
        assert(storage.0@.len() == storage.0.len());
    }

    fn field_layouts() -> (fields: Vec<BlockLayout>) {
        let mut fields: Vec<BlockLayout> = Vec::with_capacity(10);
        fields.push(field_layout::<T1>());
        fields.push(field_layout::<T2>());
        fields.push(field_layout::<T3>());
        fields.push(field_layout::<T4>());
        fields.push(field_layout::<T5>());
        fields.push(field_layout::<T6>());
        fields.push(field_layout::<T7>());
        fields.push(field_layout::<T8>());
        fields.push(field_layout::<T9>());
        fields.push(field_layout::<T10>());
        assert(fields@ =~= Self::fields());
        fields
    }

    fn dangling() -> (storage: Self::Storage) {
        let storage = (
            Vec::new(),
            Vec::new(),
            Vec::new(),
            Vec::new(),
            Vec::new(),
            Vec::new(),
            Vec::new(),
            Vec::new(),
            Vec::new(),
            Vec::new(),
        );
        assert(Self::rows(&storage) =~= Seq::<Self>::empty());
        storage
    }

    fn allocate(capacity: usize) -> (storage: Self::Storage) {
        let storage = (
            Vec::with_capacity(capacity),
            Vec::with_capacity(capacity),
            Vec::with_capacity(capacity),
            Vec::with_capacity(capacity),
            Vec::with_capacity(capacity),
            Vec::with_capacity(capacity),
            Vec::with_capacity(capacity),
            Vec::with_capacity(capacity),
            Vec::with_capacity(capacity),
            Vec::with_capacity(capacity),
        );
        assert(Self::rows(&storage) =~= Seq::<Self>::empty());
        storage
    }

    fn len(storage: &Self::Storage) -> (len: usize) {
        storage.0.len()
    }

    fn get_vec_len(vecs: &Self::Storage) -> (len: Option<usize>) {
        let len = vecs.0.len();
        if vecs.1.len() != len {
            return None;
        }
        if vecs.2.len() != len {
            return None;
        }
        if vecs.3.len() != len {
            return None;
        }
        if vecs.4.len() != len {
            return None;
        }
        if vecs.5.len() != len {
            return None;
        }
        if vecs.6.len() != len {
            return None;
        }
        if vecs.7.len() != len {
            return None;
        }
        if vecs.8.len() != len {
            return None;
        }
        if vecs.9.len() != len {
            return None;
        }
        Some(len)
    }

    fn as_ref<'a>(storage: &'a Self::Storage, index: usize) -> (record: Self::Ref<'a>) {
        (
            &storage.0[index],
            &storage.1[index],
            &storage.2[index],
            &storage.3[index],
            &storage.4[index],
            &storage.5[index],
            &storage.6[index],
            &storage.7[index],
            &storage.8[index],
            &storage.9[index],
        )
    }

    fn as_mut<'a>(storage: &'a mut Self::Storage, index: usize) -> (record: Self::RefMut<'a>)
        ensures
            Self::rows(final(storage))[index as int] == (
                *final(record.0),
                *final(record.1),
                *final(record.2),
                *final(record.3),
                *final(record.4),
                *final(record.5),
                *final(record.6),
                *final(record.7),
                *final(record.8),
                *final(record.9),
            ),
    {
        (
            &mut storage.0[index],
            &mut storage.1[index],
            &mut storage.2[index],
            &mut storage.3[index],
            &mut storage.4[index],
            &mut storage.5[index],
            &mut storage.6[index],
            &mut storage.7[index],
            &mut storage.8[index],
            &mut storage.9[index],
        )
    }

    fn as_slices<'a>(storage: &'a Self::Storage, start: usize, end: usize) -> (slices:
        Self::Slices<'a>)
        ensures
            slices.0@ == Self::rows(storage).subrange(start as int, end as int).map_values(
                |record: Self| record.0,
            ),
            slices.1@ == Self::rows(storage).subrange(start as int, end as int).map_values(
                |record: Self| record.1,
            ),
            slices.2@ == Self::rows(storage).subrange(start as int, end as int).map_values(
                |record: Self| record.2,
            ),
            slices.3@ == Self::rows(storage).subrange(start as int, end as int).map_values(
                |record: Self| record.3,
            ),
            slices.4@ == Self::rows(storage).subrange(start as int, end as int).map_values(
                |record: Self| record.4,
            ),
            slices.5@ == Self::rows(storage).subrange(start as int, end as int).map_values(
                |record: Self| record.5,
            ),
            slices.6@ == Self::rows(storage).subrange(start as int, end as int).map_values(
                |record: Self| record.6,
            ),
            slices.7@ == Self::rows(storage).subrange(start as int, end as int).map_values(
                |record: Self| record.7,
            ),
            slices.8@ == Self::rows(storage).subrange(start as int, end as int).map_values(
                |record: Self| record.8,
            ),
            slices.9@ == Self::rows(storage).subrange(start as int, end as int).map_values(
                |record: Self| record.9,
            ),
    {
        let slices = (
            window(&storage.0, start, end),
            window(&storage.1, start, end),
            window(&storage.2, start, end),
            window(&storage.3, start, end),
            window(&storage.4, start, end),
            window(&storage.5, start, end),
            window(&storage.6, start, end),
            window(&storage.7, start, end),
            window(&storage.8, start, end),
            window(&storage.9, start, end),
        );
        assert(Self::slices_rows(slices) =~= Self::rows(storage).subrange(
            start as int,
            end as int,
        ));
        assert(slices.0@ =~= Self::rows(storage).subrange(start as int, end as int).map_values(
            |record: Self| record.0,
        ));
        assert(slices.1@ =~= Self::rows(storage).subrange(start as int, end as int).map_values(
            |record: Self| record.1,
        ));
        assert(slices.2@ =~= Self::rows(storage).subrange(start as int, end as int).map_values(
            |record: Self| record.2,
        ));
        assert(slices.3@ =~= Self::rows(storage).subrange(start as int, end as int).map_values(
            |record: Self| record.3,
        ));
        assert(slices.4@ =~= Self::rows(storage).subrange(start as int, end as int).map_values(
            |record: Self| record.4,
        ));
        assert(slices.5@ =~= Self::rows(storage).subrange(start as int, end as int).map_values(
            |record: Self| record.5,
        ));
        assert(slices.6@ =~= Self::rows(storage).subrange(start as int, end as int).map_values(
            |record: Self| record.6,
        ));
        assert(slices.7@ =~= Self::rows(storage).subrange(start as int, end as int).map_values(
            |record: Self| record.7,
        ));
        assert(slices.8@ =~= Self::rows(storage).subrange(start as int, end as int).map_values(
            |record: Self| record.8,
        ));
        assert(slices.9@ =~= Self::rows(storage).subrange(start as int, end as int).map_values(
            |record: Self| record.9,
        ));
        slices
    }

    fn as_slices_mut<'a>(storage: &'a mut Self::Storage, start: usize, end: usize) -> (slices:
        Self::SlicesMut<'a>)
        ensures
            final(slices.0)@.len() == end - start,
            final(slices.1)@.len() == end - start,
            final(slices.2)@.len() == end - start,
            final(slices.3)@.len() == end - start,
            final(slices.4)@.len() == end - start,
            final(slices.5)@.len() == end - start,
            final(slices.6)@.len() == end - start,
            final(slices.7)@.len() == end - start,
            final(slices.8)@.len() == end - start,
            final(slices.9)@.len() == end - start,
            Self::rows(final(storage)).subrange(start as int, end as int) == Seq::new(
                (end - start) as nat,
                |i: int| (
                    final(slices.0)@[i],
                    final(slices.1)@[i],
                    final(slices.2)@[i],
                    final(slices.3)@[i],
                    final(slices.4)@[i],
                    final(slices.5)@[i],
                    final(slices.6)@[i],
                    final(slices.7)@[i],
                    final(slices.8)@[i],
                    final(slices.9)@[i],
                ),
            ),
    {
        let slices = (
            window_mut(&mut storage.0, start, end),
            window_mut(&mut storage.1, start, end),
            window_mut(&mut storage.2, start, end),
            window_mut(&mut storage.3, start, end),
            window_mut(&mut storage.4, start, end),
            window_mut(&mut storage.5, start, end),
            window_mut(&mut storage.6, start, end),
            window_mut(&mut storage.7, start, end),
            window_mut(&mut storage.8, start, end),
            window_mut(&mut storage.9, start, end),
        );
        assert(Self::slices_mut_rows(slices) =~= Self::rows(old(storage)).subrange(
            start as int,
            end as int,
        ));
        slices
    }

    fn iters<'a>(slices: Self::Slices<'a>) -> (iters: Self::Iters<'a>) {
        (
            slices.0.iter(),
            slices.1.iter(),
            slices.2.iter(),
            slices.3.iter(),
            slices.4.iter(),
            slices.5.iter(),
            slices.6.iter(),
            slices.7.iter(),
            slices.8.iter(),
            slices.9.iter(),
        )
    }

    fn iters_mut<'a>(slices: Self::SlicesMut<'a>) -> (iters: Self::ItersMut<'a>) {
        (
            values_mut(slices.0),
            values_mut(slices.1),
            values_mut(slices.2),
            values_mut(slices.3),
            values_mut(slices.4),
            values_mut(slices.5),
            values_mut(slices.6),
            values_mut(slices.7),
            values_mut(slices.8),
            values_mut(slices.9),
        )
    }

    open spec fn iters_mut_of(slices: Self::SlicesMut<'_>, iters: Self::ItersMut<'_>) -> bool {
        &&& crate::columns::iterates_mut(slices.0@, iters.0)
        &&& crate::columns::iterates_mut(slices.1@, iters.1)
        &&& crate::columns::iterates_mut(slices.2@, iters.2)
        &&& crate::columns::iterates_mut(slices.3@, iters.3)
        &&& crate::columns::iterates_mut(slices.4@, iters.4)
        &&& crate::columns::iterates_mut(slices.5@, iters.5)
        &&& crate::columns::iterates_mut(slices.6@, iters.6)
        &&& crate::columns::iterates_mut(slices.7@, iters.7)
        &&& crate::columns::iterates_mut(slices.8@, iters.8)
        &&& crate::columns::iterates_mut(slices.9@, iters.9)
    }

    fn into_deques(storage: Self::Storage) -> (deques: Self::Deques) {
        let deques = (
            into_deque(storage.0),
            into_deque(storage.1),
            into_deque(storage.2),
            into_deque(storage.3),
            into_deque(storage.4),
            into_deque(storage.5),
            into_deque(storage.6),
            into_deque(storage.7),
            into_deque(storage.8),
            into_deque(storage.9),
        );
        assert(Self::deques_rows(&deques) =~= Self::rows(&storage));
        deques
    }

    fn deques_len(deques: &Self::Deques) -> (len: usize) {
        deques.0.len()
    }

    fn pop_front(deques: &mut Self::Deques) -> (value: Self) {
        let value = (
            deques.0.pop_front().unwrap(),
            deques.1.pop_front().unwrap(),
            deques.2.pop_front().unwrap(),
            deques.3.pop_front().unwrap(),
            deques.4.pop_front().unwrap(),
            deques.5.pop_front().unwrap(),
            deques.6.pop_front().unwrap(),
            deques.7.pop_front().unwrap(),
            deques.8.pop_front().unwrap(),
            deques.9.pop_front().unwrap(),
        );
        assert(Self::deques_rows(deques) =~= Self::deques_rows(old(deques)).drop_first());
        value
    }

    fn pop_back(deques: &mut Self::Deques) -> (value: Self) {
        let value = (
            deques.0.pop_back().unwrap(),
            deques.1.pop_back().unwrap(),
            deques.2.pop_back().unwrap(),
            deques.3.pop_back().unwrap(),
            deques.4.pop_back().unwrap(),
            deques.5.pop_back().unwrap(),
            deques.6.pop_back().unwrap(),
            deques.7.pop_back().unwrap(),
            deques.8.pop_back().unwrap(),
            deques.9.pop_back().unwrap(),
        );
        assert(Self::deques_rows(deques) =~= Self::deques_rows(old(deques)).drop_last());
        value
    }

    fn push(storage: &mut Self::Storage, value: Self) {
        storage.0.push(value.0);
        storage.1.push(value.1);
        storage.2.push(value.2);
        storage.3.push(value.3);
        storage.4.push(value.4);
        storage.5.push(value.5);
        storage.6.push(value.6);
        storage.7.push(value.7);
        storage.8.push(value.8);
        storage.9.push(value.9);
        assert(Self::rows(storage) =~= Self::rows(old(storage)).push(value));
    }

    fn pop(storage: &mut Self::Storage) -> (value: Self) {
        let value = (
            storage.0.pop().unwrap(),
            storage.1.pop().unwrap(),
            storage.2.pop().unwrap(),
            storage.3.pop().unwrap(),
            storage.4.pop().unwrap(),
            storage.5.pop().unwrap(),
            storage.6.pop().unwrap(),
            storage.7.pop().unwrap(),
            storage.8.pop().unwrap(),
            storage.9.pop().unwrap(),
        );
        assert(Self::rows(storage) =~= Self::rows(old(storage)).drop_last());
        value
    }

    fn insert(storage: &mut Self::Storage, index: usize, value: Self) {
        storage.0.insert(index, value.0);
        storage.1.insert(index, value.1);
        storage.2.insert(index, value.2);
        storage.3.insert(index, value.3);
        storage.4.insert(index, value.4);
        storage.5.insert(index, value.5);
        storage.6.insert(index, value.6);
        storage.7.insert(index, value.7);
        storage.8.insert(index, value.8);
        storage.9.insert(index, value.9);
        assert(Self::rows(storage) =~= Self::rows(old(storage)).insert(index as int, value));
    }

    fn remove(storage: &mut Self::Storage, index: usize) -> (value: Self) {
        let value = (
            storage.0.remove(index),
            storage.1.remove(index),
            storage.2.remove(index),
            storage.3.remove(index),
            storage.4.remove(index),
            storage.5.remove(index),
            storage.6.remove(index),
            storage.7.remove(index),
            storage.8.remove(index),
            storage.9.remove(index),
        );
        assert(Self::rows(storage) =~= Self::rows(old(storage)).remove(index as int));
        value
    }

    fn swap_remove(storage: &mut Self::Storage, index: usize) -> (value: Self) {
        let value = (
            storage.0.swap_remove(index),
            storage.1.swap_remove(index),
            storage.2.swap_remove(index),
            storage.3.swap_remove(index),
            storage.4.swap_remove(index),
            storage.5.swap_remove(index),
            storage.6.swap_remove(index),
            storage.7.swap_remove(index),
            storage.8.swap_remove(index),
            storage.9.swap_remove(index),
        );
        assert(Self::rows(storage) =~= Self::rows(old(storage)).update(
            index as int,
            Self::rows(old(storage)).last(),
        ).drop_last());
        value
    }

    fn truncate(storage: &mut Self::Storage, len: usize) {
        storage.0.truncate(len);
        storage.1.truncate(len);
        storage.2.truncate(len);
        storage.3.truncate(len);
        storage.4.truncate(len);
        storage.5.truncate(len);
        storage.6.truncate(len);
        storage.7.truncate(len);
        storage.8.truncate(len);
        storage.9.truncate(len);
        assert(Self::rows(storage) =~= Self::rows(old(storage)).take(len as int));
    }

    fn set(storage: &mut Self::Storage, index: usize, value: Self) {
        set_value(&mut storage.0, index, value.0);
        set_value(&mut storage.1, index, value.1);
        set_value(&mut storage.2, index, value.2);
        set_value(&mut storage.3, index, value.3);
        set_value(&mut storage.4, index, value.4);
        set_value(&mut storage.5, index, value.5);
        set_value(&mut storage.6, index, value.6);
        set_value(&mut storage.7, index, value.7);
        set_value(&mut storage.8, index, value.8);
        set_value(&mut storage.9, index, value.9);
        assert(Self::rows(storage) =~= Self::rows(old(storage)).update(index as int, value));
    }

    fn swap(storage: &mut Self::Storage, a: usize, b: usize) {
        swap_values(&mut storage.0, a, b);
        swap_values(&mut storage.1, a, b);
        swap_values(&mut storage.2, a, b);
        swap_values(&mut storage.3, a, b);
        swap_values(&mut storage.4, a, b);
        swap_values(&mut storage.5, a, b);
        swap_values(&mut storage.6, a, b);
        swap_values(&mut storage.7, a, b);
        swap_values(&mut storage.8, a, b);
        swap_values(&mut storage.9, a, b);
        assert(Self::rows(storage) =~= Self::rows(old(storage)).update(
            a as int,
            Self::rows(old(storage))[b as int],
        ).update(b as int, Self::rows(old(storage))[a as int]));
    }

    fn swap_with(
        storage: &mut Self::Storage,
        index: usize,
        other: &mut Self::Storage,
        other_index: usize,
    ) {
        core::mem::swap(&mut storage.0[index], &mut other.0[other_index]);
        core::mem::swap(&mut storage.1[index], &mut other.1[other_index]);
        core::mem::swap(&mut storage.2[index], &mut other.2[other_index]);
        core::mem::swap(&mut storage.3[index], &mut other.3[other_index]);
        core::mem::swap(&mut storage.4[index], &mut other.4[other_index]);
        core::mem::swap(&mut storage.5[index], &mut other.5[other_index]);
        core::mem::swap(&mut storage.6[index], &mut other.6[other_index]);
        core::mem::swap(&mut storage.7[index], &mut other.7[other_index]);
        core::mem::swap(&mut storage.8[index], &mut other.8[other_index]);
        core::mem::swap(&mut storage.9[index], &mut other.9[other_index]);
        assert(Self::rows(storage) =~= Self::rows(old(storage)).update(
            index as int,
            Self::rows(old(other))[other_index as int],
        ));
        assert(Self::rows(other) =~= Self::rows(old(other)).update(
            other_index as int,
            Self::rows(old(storage))[index as int],
        ));
    }

    fn reverse(storage: &mut Self::Storage, start: usize, end: usize) {
        reverse_window(&mut storage.0, start, end);
        reverse_window(&mut storage.1, start, end);
        reverse_window(&mut storage.2, start, end);
        reverse_window(&mut storage.3, start, end);
        reverse_window(&mut storage.4, start, end);
        reverse_window(&mut storage.5, start, end);
        reverse_window(&mut storage.6, start, end);
        reverse_window(&mut storage.7, start, end);
        reverse_window(&mut storage.8, start, end);
        reverse_window(&mut storage.9, start, end);
        assert(Self::rows(storage) =~= Self::rows(old(storage)).subrange(0, start as int)
            + Self::rows(old(storage)).subrange(start as int, end as int).reverse()
            + Self::rows(old(storage)).subrange(end as int, Self::rows(old(storage)).len() as int));
    }

    fn copy_to(src: &mut Self::Storage, dst: &mut Self::Storage) {
        dst.0.append(&mut src.0);
        dst.1.append(&mut src.1);
        dst.2.append(&mut src.2);
        dst.3.append(&mut src.3);
        dst.4.append(&mut src.4);
        dst.5.append(&mut src.5);
        dst.6.append(&mut src.6);
        dst.7.append(&mut src.7);
        dst.8.append(&mut src.8);
        dst.9.append(&mut src.9);
        assert(Self::rows(src) =~= Seq::<Self>::empty());
        assert(Self::rows(dst) =~= Self::rows(old(dst)) + Self::rows(old(src)));
    }
}

impl<T1: Clone + 'static, T2: Clone + 'static, T3: Clone + 'static, T4: Clone + 'static, T5: Clone + 'static, T6: Clone + 'static, T7: Clone + 'static, T8: Clone + 'static, T9: Clone + 'static, T10: Clone + 'static> ParallelParamClone for (T1, T2, T3, T4, T5, T6, T7, T8, T9, T10) {
    open spec fn cloned_fields(value: Self, copy: Self) -> bool {
        &&& cloned(value.0, copy.0)
        &&& cloned(value.1, copy.1)
        &&& cloned(value.2, copy.2)
        &&& cloned(value.3, copy.3)
        &&& cloned(value.4, copy.4)
        &&& cloned(value.5, copy.5)
        &&& cloned(value.6, copy.6)
        &&& cloned(value.7, copy.7)
        &&& cloned(value.8, copy.8)
        &&& cloned(value.9, copy.9)
    }

    fn read_clone(storage: &Self::Storage, index: usize) -> (copy: Self) {
        (
            storage.0[index].clone(),
            storage.1[index].clone(),
            storage.2[index].clone(),
            storage.3[index].clone(),
            storage.4[index].clone(),
            storage.5[index].clone(),
            storage.6[index].clone(),
            storage.7[index].clone(),
            storage.8[index].clone(),
            storage.9[index].clone(),
        )
    }
}

impl<T1: Copy + 'static, T2: Copy + 'static, T3: Copy + 'static, T4: Copy + 'static, T5: Copy + 'static, T6: Copy + 'static, T7: Copy + 'static, T8: Copy + 'static, T9: Copy + 'static, T10: Copy + 'static> ParallelParamCopy for (T1, T2, T3, T4, T5, T6, T7, T8, T9, T10) {
    fn read(storage: &Self::Storage, index: usize) -> (copy: Self) {
        (
            storage.0[index],
            storage.1[index],
            storage.2[index],
            storage.3[index],
            storage.4[index],
            storage.5[index],
            storage.6[index],
            storage.7[index],
            storage.8[index],
            storage.9[index],
        )
    }
}

impl<T1: 'static, T2: 'static, T3: 'static, T4: 'static, T5: 'static, T6: 'static, T7: 'static, T8: 'static, T9: 'static, T10: 'static> TryFromSpecImpl<(Vec<T1>, Vec<T2>, Vec<T3>, Vec<T4>, Vec<T5>, Vec<T6>, Vec<T7>, Vec<T8>, Vec<T9>, Vec<T10>)> for ParallelVec<(T1, T2, T3, T4, T5, T6, T7, T8, T9, T10)> {
    open spec fn obeys_try_from_spec() -> bool {
        false
    }

    open spec fn try_from_spec(vecs: (Vec<T1>, Vec<T2>, Vec<T3>, Vec<T4>, Vec<T5>, Vec<T6>, Vec<T7>, Vec<T8>, Vec<T9>, Vec<T10>)) -> Result<Self, Self::Error> {
        arbitrary()
    }
}

impl<T1: 'static, T2: 'static, T3: 'static, T4: 'static, T5: 'static, T6: 'static, T7: 'static, T8: 'static, T9: 'static, T10: 'static> TryFrom<(Vec<T1>, Vec<T2>, Vec<T3>, Vec<T4>, Vec<T5>, Vec<T6>, Vec<T7>, Vec<T8>, Vec<T9>, Vec<T10>)> for ParallelVec<(T1, T2, T3, T4, T5, T6, T7, T8, T9, T10)> {
    type Error = ParallelVecConversionError;

    /// A container that holds the records of columns of one length, with no
    /// room to spare, or the error that says that the columns differ in length.
    fn try_from(vecs: (Vec<T1>, Vec<T2>, Vec<T3>, Vec<T4>, Vec<T5>, Vec<T6>, Vec<T7>, Vec<T8>, Vec<T9>, Vec<T10>)) -> (converted: Result<Self, Self::Error>)
        ensures
            converted is Ok <==> <(T1, T2, T3, T4, T5, T6, T7, T8, T9, T10) as ParallelParam>::aligned(&vecs),
            converted matches Ok(vec) ==> vec.wf() && vec@ == <(T1, T2, T3, T4, T5, T6, T7, T8, T9, T10) as ParallelParam>::rows(&vecs)
                && vec.spec_capacity() == vec@.len(),
            converted matches Err(error) ==> error == ParallelVecConversionError::UnevenLengths,
    {
        ParallelVec::from_vecs(vecs)
    }
}

} // verus!
