//! A growable sequence of records that keeps each field in a column of its own.
//!
//! [`ParallelVec`] offers what a `Vec` of tuples offers, while every field of the
//! records lies in its own contiguous array. An operation that reads one field of
//! many records then touches only that field's memory. [`ParallelSlice`] and
//! [`ParallelSliceMut`] are views of a run of records; the iterators in [`iter`]
//! walk them. A record shape is a tuple of two to twelve fields
//! ([`ParallelParam`]).
//!
//! # The model
//!
//! The contents of every container, view and iterator are modelled as a `Seq` of
//! records, its view, and the contracts of all operations are stated over that
//! model. Each type has an invariant, `wf`: every operation asks for it and
//! gives it back. An operation that would panic in a `Vec` on some input asks in
//! its precondition that the input be another; none checks and fails. As in
//! `vstd`, memory is taken to be there when it is asked for.
//!
//! A mutable view holds a mutable borrow of the columns it looks at. Its fields
//! are public, so that the contract of the operation that hands it out can say
//! what the borrowed container holds once the view is gone: what the columns of
//! the view hold then.
//!
//! # What is taken on trust
//!
//! The columns are `Vec`s, whose operations `vstd` specifies. Beyond that, the
//! proofs rest on what [`columns`], [`growth`], [`ranges`] and [`sort`] say of a
//! few functions of the standard library that `vstd` does not specify: exchange,
//! reversal, mutable windows and mutable iterators of slices, the conversion of
//! a vector into a deque, the next power of two, the bounds of an inclusive
//! range, and the four sorts of slices.
use vstd::prelude::*;

pub mod columns;
pub mod growth;
pub mod iter;
pub mod laws;
pub mod layout;
pub mod param;
pub mod permute;
pub mod ranges;
mod sealed;
mod shapes;
pub mod slice;
pub mod sort;
pub mod vec;

pub use param::{ParallelParam, ParallelParamClone, ParallelParamCopy};
pub use slice::{ParallelSlice, ParallelSliceIndex, ParallelSliceIndexMut, ParallelSliceMut};
pub use vec::ParallelVec;

verus! {

/// Why a set of columns could not be taken as the contents of a [`ParallelVec`].
#[derive(Debug, Clone, Copy, Hash, PartialEq, Eq, Structural)]
pub enum ParallelVecConversionError {
    /// The columns do not all hold the same number of values.
    UnevenLengths,
}

} // verus!
