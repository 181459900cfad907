//! Walking the records of a container or view, from either end.
//!
//! The view of each iterator is the sequence of the records it has yet to hand
//! out, in the order in which it hands them out from the front.
use crate::param::ParallelParam;
use crate::slice::{frame_kept, ParallelSliceMut};
use vstd::prelude::*;

verus! {

/// Hands out shared references to the records of a view.
pub struct Iter<'a, Param: ParallelParam> {
    storage: &'a Param::Storage,
    front: usize,
    back: usize,
}

impl<'a, Param: ParallelParam> View for Iter<'a, Param> {
    type V = Seq<Param>;

    closed spec fn view(&self) -> Seq<Param> {
        Param::rows(self.storage).subrange(self.front as int, self.back as int)
    }
}

impl<'a, Param: ParallelParam> Iter<'a, Param> {
    /// The invariant of the iterator: the columns it looks at are aligned and
    /// hold all that it has yet to hand out.
    pub closed spec fn wf(&self) -> bool {
        &&& Param::aligned(self.storage)
        &&& self.front <= self.back <= Param::rows(self.storage).len()
    }

    /// An iterator over the `len` records from `start` on in `storage`.
    pub(crate) fn new(storage: &'a Param::Storage, start: usize, len: usize) -> (iter: Self)
        requires
            Param::aligned(storage),
            start + len <= Param::rows(storage).len(),
        ensures
            iter.wf(),
            iter@ == Param::rows(storage).subrange(start as int, start + len),
    {
        proof {
            Param::lemma_rows_len(storage);
        }
        Iter { storage, front: start, back: start + len }
    }

    /// The next record from the front, or `None` where none is left.
    pub fn next(&mut self) -> (record: Option<Param::Ref<'a>>)
        requires
            old(self).wf(),
        ensures
            final(self).wf(),
            old(self)@.len() == 0 ==> record is None && final(self)@ == old(self)@,
            old(self)@.len() > 0 ==> final(self)@ == old(self)@.drop_first(),
            old(self)@.len() > 0 ==> (record matches Some(first) && Param::ref_value(first) == old(
                self,
            )@.first()),
    {
        if self.front == self.back {
            return None;
        }
        let record = Param::as_ref(self.storage, self.front);
        self.front = self.front + 1;
        assert(self@ =~= old(self)@.drop_first());
        Some(record)
    }

    /// The next record from the back, or `None` where none is left.
    pub fn next_back(&mut self) -> (record: Option<Param::Ref<'a>>)
        requires
            old(self).wf(),
        ensures
            final(self).wf(),
            old(self)@.len() == 0 ==> record is None && final(self)@ == old(self)@,
            old(self)@.len() > 0 ==> final(self)@ == old(self)@.drop_last(),
            old(self)@.len() > 0 ==> (record matches Some(last) && Param::ref_value(last) == old(
                self,
            )@.last()),
    {
        if self.front == self.back {
            return None;
        }
        self.back = self.back - 1;
        assert(self@ =~= old(self)@.drop_last());
        Some(Param::as_ref(self.storage, self.back))
    }

    /// The number of records left, as its lower and its upper bound.
    pub fn size_hint(&self) -> (bounds: (usize, Option<usize>))
        requires
            self.wf(),
        ensures
            bounds.0 == self@.len(),
            bounds.1 == Some(bounds.0),
    {
        let remaining = self.back - self.front;
        (remaining, Some(remaining))
    }

    /// The number of records left.
    pub fn len(&self) -> (len: usize)
        requires
            self.wf(),
        ensures
            len == self@.len(),
    {
        self.back - self.front
    }
}

/// Hands out mutable references to the records of a view.
///
/// The iterator is a view that shrinks: what it has yet to hand out is what
/// `remaining` holds.
pub struct IterMut<'a, Param: ParallelParam> {
    /// The records that the iterator has yet to hand out.
    pub remaining: ParallelSliceMut<'a, Param>,
}

impl<'a, Param: ParallelParam> View for IterMut<'a, Param> {
    type V = Seq<Param>;

    open spec fn view(&self) -> Seq<Param> {
        self.remaining@
    }
}

impl<'a, Param: ParallelParam> IterMut<'a, Param> {
    /// The invariant of the iterator: what it has yet to hand out is a
    /// well-formed view.
    pub open spec fn wf(&self) -> bool {
        self.remaining.wf()
    }

    /// The next record from the front, or `None` where none is left. The
    /// reference has to be let go before the iterator is asked again. Whatever
    /// is written through it, the columns stay aligned and all other records
    /// stay as they are.
    pub fn next(&mut self) -> (record: Option<Param::RefMut<'_>>)
        requires
            old(self).wf(),
        ensures
            old(self)@.len() == 0 ==> record is None && *final(self).remaining.storage == *old(
                self,
            ).remaining.storage,
            old(self)@.len() > 0 ==> (record matches Some(first) && Param::mut_value(first) == old(
                self,
            )@.first()),
            old(self)@.len() > 0 ==> final(self)@ == old(self)@.drop_first(),
            old(self)@.len() > 0 ==> final(self).remaining.start == old(self).remaining.start + 1
                && final(self).remaining.len == old(self).remaining.len - 1,
            frame_kept::<Param>(
                old(self).remaining.rows(),
                final(self).remaining.rows(),
                final(self).wf(),
                old(self).remaining.start as int,
                |position: int| position == 0,
            ),
            *final(final(self).remaining.storage) == *final(old(self).remaining.storage),
    {
        if self.remaining.len == 0 {
            return None;
        }
        let index = self.remaining.start;
        self.remaining.start = index + 1;
        self.remaining.len = self.remaining.len - 1;
        Some(Param::as_mut(&mut *self.remaining.storage, index))
    }

    /// The next record from the back, or `None` where none is left. The
    /// reference has to be let go before the iterator is asked again. Whatever
    /// is written through it, the columns stay aligned and all other records
    /// stay as they are.
    pub fn next_back(&mut self) -> (record: Option<Param::RefMut<'_>>)
        requires
            old(self).wf(),
        ensures
            old(self)@.len() == 0 ==> record is None && *final(self).remaining.storage == *old(
                self,
            ).remaining.storage,
            old(self)@.len() > 0 ==> (record matches Some(last) && Param::mut_value(last) == old(
                self,
            )@.last()),
            old(self)@.len() > 0 ==> final(self)@ == old(self)@.drop_last(),
            old(self)@.len() > 0 ==> final(self).remaining.start == old(self).remaining.start
                && final(self).remaining.len == old(self).remaining.len - 1,
            frame_kept::<Param>(
                old(self).remaining.rows(),
                final(self).remaining.rows(),
                final(self).wf(),
                old(self).remaining.start as int,
                |position: int| position == old(self).remaining.len - 1,
            ),
            *final(final(self).remaining.storage) == *final(old(self).remaining.storage),
    {
        if self.remaining.len == 0 {
            return None;
        }
        let index = self.remaining.start + (self.remaining.len - 1);
        self.remaining.len = self.remaining.len - 1;
        Some(Param::as_mut(&mut *self.remaining.storage, index))
    }

    /// The number of records left.
    pub fn len(&self) -> (len: usize)
        ensures
            len == self.remaining.len,
    {
        self.remaining.len
    }
}

/// Hands out the records of a container that it has taken over.
///
/// The records that are left when the iterator is dropped are dropped with it.
pub struct IntoIter<Param: ParallelParam> {
    deques: Param::Deques,
}

impl<Param: ParallelParam> View for IntoIter<Param> {
    type V = Seq<Param>;

    closed spec fn view(&self) -> Seq<Param> {
        Param::deques_rows(&self.deques)
    }
}

impl<Param: ParallelParam> IntoIter<Param> {
    /// The invariant of the iterator: its columns are aligned.
    pub closed spec fn wf(&self) -> bool {
        Param::deques_aligned(&self.deques)
    }

    /// An iterator that hands out the records of `storage`, first to last.
    pub(crate) fn new(storage: Param::Storage) -> (iter: Self)
        requires
            Param::aligned(&storage),
        ensures
            iter.wf(),
            iter@ == Param::rows(&storage),
    {
        IntoIter { deques: Param::into_deques(storage) }
    }

    /// The next record from the front, or `None` where none is left.
    pub fn next(&mut self) -> (record: Option<Param>)
        requires
            old(self).wf(),
        ensures
            final(self).wf(),
            old(self)@.len() == 0 ==> record is None && final(self)@ == old(self)@,
            old(self)@.len() > 0 ==> record == Some(old(self)@.first()) && final(self)@ == old(
                self,
            )@.drop_first(),
    {
        if Param::deques_len(&self.deques) == 0 {
            return None;
        }
        Some(Param::pop_front(&mut self.deques))
    }

    /// The next record from the back, or `None` where none is left.
    pub fn next_back(&mut self) -> (record: Option<Param>)
        requires
            old(self).wf(),
        ensures
            final(self).wf(),
            old(self)@.len() == 0 ==> record is None && final(self)@ == old(self)@,
            old(self)@.len() > 0 ==> record == Some(old(self)@.last()) && final(self)@ == old(
                self,
            )@.drop_last(),
    {
        if Param::deques_len(&self.deques) == 0 {
            return None;
        }
        Some(Param::pop_back(&mut self.deques))
    }

    /// The number of records left, as its lower and its upper bound.
    pub fn size_hint(&self) -> (bounds: (usize, Option<usize>))
        requires
            self.wf(),
        ensures
            bounds.0 == self@.len(),
            bounds.1 == Some(bounds.0),
    {
        let remaining = Param::deques_len(&self.deques);
        (remaining, Some(remaining))
    }

    /// All records that are left, first to last.
    pub fn collect(self) -> (records: Vec<Param>)
        requires
            self.wf(),
        ensures
            records@ == self@,
    {
        let mut iter = self;
        let (remaining, _) = iter.size_hint();
        let mut records: Vec<Param> = Vec::with_capacity(remaining);
        let mut taken: usize = 0;
        while taken < remaining
            invariant
                iter.wf(),
                taken <= remaining == self@.len(),
                records@ == self@.take(taken as int),
                iter@ == self@.skip(taken as int),
            decreases remaining - taken,
        {
            let record = iter.next().unwrap();
            records.push(record);
            taken = taken + 1;
            assert(records@ =~= self@.take(taken as int));
            assert(iter@ =~= self@.skip(taken as int));
        }
        assert(self@.take(remaining as int) =~= self@);
        records
    }
}

} // verus!
