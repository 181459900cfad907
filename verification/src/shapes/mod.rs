//! The record shapes: tuples of two to twelve fields.
mod arity2;
mod arity3;
mod arity4;
mod arity5;
mod arity6;
mod arity7;
mod arity8;
mod arity9;
mod arity10;
mod arity11;
mod arity12;
