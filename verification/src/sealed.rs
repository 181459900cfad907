//! Keeps the record shapes to those that this crate implements.
use vstd::prelude::*;

verus! {

/// Implemented for the tuples that are record shapes, and for nothing else: no
/// other crate can name this trait, so none can add a record shape whose
/// operations were not verified here.
pub trait Sealed {

}

} // verus!
