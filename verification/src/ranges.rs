//! The other ranges of the standard library as indices into views.
//!
//! Each of them selects what the half-open range with the same bounds selects:
//! `a..=b` stands for `a..b + 1`, `..b` for `0..b`, `a..` for `a..len` and `..`
//! for `0..len`, where `len` is the length of the view.
use crate::slice::{ParallelSlice, ParallelSliceIndex, ParallelSliceIndexMut, ParallelSliceMut};
use crate::ParallelParam;
use core::ops::{Range, RangeFrom, RangeFull, RangeInclusive, RangeTo};
use vstd::prelude::*;
use vstd::std_specs::range::RangeInclusiveView;

verus! {

/// `core::ops::RangeTo`, the range `..end`.
#[verifier::external_type_specification]
pub struct ExRangeTo<Idx>(RangeTo<Idx>);

/// `core::ops::RangeFrom`, the range `start..`.
#[verifier::external_type_specification]
pub struct ExRangeFrom<Idx>(RangeFrom<Idx>);

/// `core::ops::RangeFull`, the range `..`.
#[verifier::external_type_specification]
pub struct ExRangeFull(RangeFull);

/// The bounds that `RangeInclusive::into_inner` returns for a range.
pub uninterp spec fn inclusive_bounds(range: RangeInclusiveView<usize>) -> (usize, usize);

/// The lower and the upper bound of an inclusive range: its start and its end,
/// or, for a range that an iteration has exhausted, what
/// `RangeInclusive::into_inner` returns for it.
pub open spec fn bounds_of(range: RangeInclusiveView<usize>) -> (usize, usize) {
    if range.exhausted {
        inclusive_bounds(range)
    } else {
        (range.start, range.end)
    }
}

/// `RangeInclusive::into_inner` takes a range apart into its lower and its upper
/// bound. For a range that an iteration has exhausted the standard library
/// leaves open what the bounds are.
#[verifier::external_body]
fn into_bounds(range: RangeInclusive<usize>) -> (bounds: (usize, usize))
    ensures
        bounds == inclusive_bounds(range@),
        !range@.exhausted ==> bounds == (range@.start, range@.end),
{
    range.into_inner()
}

impl<Param: ParallelParam> ParallelSliceIndex<Param> for RangeTo<usize> {
    type Output<'a> = ParallelSlice<'a, Param>;

    open spec fn in_bounds(self, len: nat) -> bool {
        self.end <= len
    }

    open spec fn selects(self, rows: Seq<Param>, output: Self::Output<'_>) -> bool {
        &&& output.wf()
        &&& output@ == rows.subrange(0, self.end as int)
    }

    fn get<'a>(self, slice: &ParallelSlice<'a, Param>) -> (output: Option<Self::Output<'a>>) {
        (Range { start: 0, end: self.end }).get(slice)
    }

    fn index<'a>(self, slice: &ParallelSlice<'a, Param>) -> (output: Self::Output<'a>) {
        (Range { start: 0, end: self.end }).index(slice)
    }
}

impl<Param: ParallelParam> ParallelSliceIndex<Param> for RangeInclusive<usize> {
    type Output<'a> = ParallelSlice<'a, Param>;

    open spec fn in_bounds(self, len: nat) -> bool {
        bounds_of(self@).0 <= bounds_of(self@).1 + 1 <= len
    }

    open spec fn selects(self, rows: Seq<Param>, output: Self::Output<'_>) -> bool {
        &&& output.wf()
        &&& output@ == rows.subrange(
            bounds_of(self@).0 as int,
            bounds_of(self@).1 + 1,
        )
    }

    fn get<'a>(self, slice: &ParallelSlice<'a, Param>) -> (output: Option<Self::Output<'a>>) {
        let (start, last) = into_bounds(self);
        if last >= slice.len() {
            return None;
        }
        (Range { start, end: last + 1 }).get(slice)
    }

    fn index<'a>(self, slice: &ParallelSlice<'a, Param>) -> (output: Self::Output<'a>) {
        let (start, last) = into_bounds(self);
        let _ = slice.len();
        (Range { start, end: last + 1 }).index(slice)
    }
}

impl<Param: ParallelParam> ParallelSliceIndex<Param> for RangeFrom<usize> {
    type Output<'a> = ParallelSlice<'a, Param>;

    open spec fn in_bounds(self, len: nat) -> bool {
        self.start <= len
    }

    open spec fn selects(self, rows: Seq<Param>, output: Self::Output<'_>) -> bool {
        &&& output.wf()
        &&& output@ == rows.subrange(self.start as int, rows.len() as int)
    }

    fn get<'a>(self, slice: &ParallelSlice<'a, Param>) -> (output: Option<Self::Output<'a>>) {
        (Range { start: self.start, end: slice.len() }).get(slice)
    }

    fn index<'a>(self, slice: &ParallelSlice<'a, Param>) -> (output: Self::Output<'a>) {
        (Range { start: self.start, end: slice.len() }).index(slice)
    }
}

impl<Param: ParallelParam> ParallelSliceIndex<Param> for RangeFull {
    type Output<'a> = ParallelSlice<'a, Param>;

    open spec fn in_bounds(self, len: nat) -> bool {
        true
    }

    open spec fn selects(self, rows: Seq<Param>, output: Self::Output<'_>) -> bool {
        &&& output.wf()
        &&& output@ == rows
    }

    fn get<'a>(self, slice: &ParallelSlice<'a, Param>) -> (output: Option<Self::Output<'a>>) {
        let output = (Range { start: 0, end: slice.len() }).get(slice);
        assert(slice@.subrange(0, slice@.len() as int) =~= slice@);
        output
    }

    fn index<'a>(self, slice: &ParallelSlice<'a, Param>) -> (output: Self::Output<'a>) {
        let output = (Range { start: 0, end: slice.len() }).index(slice);
        assert(slice@.subrange(0, slice@.len() as int) =~= slice@);
        output
    }
}

impl<Param: ParallelParam> ParallelSliceIndexMut<Param> for RangeTo<usize> {
    type Output<'a> = ParallelSliceMut<'a, Param>;

    open spec fn in_bounds_mut(self, len: nat) -> bool {
        self.end <= len
    }

    open spec fn selects_mut(self, rows: Seq<Param>, output: Self::Output<'_>) -> bool {
        &&& output.wf()
        &&& output@ == rows.subrange(0, self.end as int)
    }

    open spec fn writes_in_place(self) -> bool {
        false
    }

    open spec fn touches(self, position: int) -> bool {
        0 <= position < self.end
    }

    open spec fn window(self, len: nat) -> (int, int) {
        (0, self.end as int)
    }

    open spec fn as_view<'a>(output: Self::Output<'a>) -> Option<ParallelSliceMut<'a, Param>> {
        Some(output)
    }

    fn get_mut<'a>(self, slice: ParallelSliceMut<'a, Param>) -> (output: Option<Self::Output<'a>>) {
        (Range { start: 0, end: self.end }).get_mut(slice)
    }

    fn index_mut<'a>(self, slice: ParallelSliceMut<'a, Param>) -> (output: Self::Output<'a>) {
        (Range { start: 0, end: self.end }).index_mut(slice)
    }
}

impl<Param: ParallelParam> ParallelSliceIndexMut<Param> for RangeInclusive<usize> {
    type Output<'a> = ParallelSliceMut<'a, Param>;

    open spec fn in_bounds_mut(self, len: nat) -> bool {
        bounds_of(self@).0 <= bounds_of(self@).1 + 1 <= len
    }

    open spec fn selects_mut(self, rows: Seq<Param>, output: Self::Output<'_>) -> bool {
        &&& output.wf()
        &&& output@ == rows.subrange(
            bounds_of(self@).0 as int,
            bounds_of(self@).1 + 1,
        )
    }

    open spec fn writes_in_place(self) -> bool {
        false
    }

    open spec fn touches(self, position: int) -> bool {
        bounds_of(self@).0 <= position <= bounds_of(self@).1
    }

    open spec fn window(self, len: nat) -> (int, int) {
        (bounds_of(self@).0 as int, bounds_of(self@).1 + 1 - bounds_of(self@).0)
    }

    open spec fn as_view<'a>(output: Self::Output<'a>) -> Option<ParallelSliceMut<'a, Param>> {
        Some(output)
    }

    fn get_mut<'a>(self, slice: ParallelSliceMut<'a, Param>) -> (output: Option<Self::Output<'a>>) {
        let (start, last) = into_bounds(self);
        if last >= slice.len {
            return None;
        }
        (Range { start, end: last + 1 }).get_mut(slice)
    }

    fn index_mut<'a>(self, slice: ParallelSliceMut<'a, Param>) -> (output: Self::Output<'a>) {
        let (start, last) = into_bounds(self);
        (Range { start, end: last + 1 }).index_mut(slice)
    }
}

impl<Param: ParallelParam> ParallelSliceIndexMut<Param> for RangeFrom<usize> {
    type Output<'a> = ParallelSliceMut<'a, Param>;

    open spec fn in_bounds_mut(self, len: nat) -> bool {
        self.start <= len
    }

    open spec fn selects_mut(self, rows: Seq<Param>, output: Self::Output<'_>) -> bool {
        &&& output.wf()
        &&& output@ == rows.subrange(self.start as int, rows.len() as int)
    }

    open spec fn writes_in_place(self) -> bool {
        false
    }

    open spec fn touches(self, position: int) -> bool {
        self.start <= position
    }

    open spec fn window(self, len: nat) -> (int, int) {
        (self.start as int, len - self.start)
    }

    open spec fn as_view<'a>(output: Self::Output<'a>) -> Option<ParallelSliceMut<'a, Param>> {
        Some(output)
    }

    fn get_mut<'a>(self, slice: ParallelSliceMut<'a, Param>) -> (output: Option<Self::Output<'a>>) {
        let end = slice.len;
        (Range { start: self.start, end }).get_mut(slice)
    }

    fn index_mut<'a>(self, slice: ParallelSliceMut<'a, Param>) -> (output: Self::Output<'a>) {
        let end = slice.len;
        (Range { start: self.start, end }).index_mut(slice)
    }
}

impl<Param: ParallelParam> ParallelSliceIndexMut<Param> for RangeFull {
    type Output<'a> = ParallelSliceMut<'a, Param>;

    open spec fn in_bounds_mut(self, len: nat) -> bool {
        true
    }

    open spec fn selects_mut(self, rows: Seq<Param>, output: Self::Output<'_>) -> bool {
        &&& output.wf()
        &&& output@ == rows
    }

    open spec fn writes_in_place(self) -> bool {
        false
    }

    open spec fn touches(self, position: int) -> bool {
        true
    }

    open spec fn window(self, len: nat) -> (int, int) {
        (0, len as int)
    }

    open spec fn as_view<'a>(output: Self::Output<'a>) -> Option<ParallelSliceMut<'a, Param>> {
        Some(output)
    }

    fn get_mut<'a>(self, slice: ParallelSliceMut<'a, Param>) -> (output: Option<Self::Output<'a>>) {
        Some(slice)
    }

    fn index_mut<'a>(self, slice: ParallelSliceMut<'a, Param>) -> (output: Self::Output<'a>) {
        slice
    }
}

} // verus!
