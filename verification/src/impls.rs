//! The implementations of the capability contracts for arrays.

mod generic;
mod push_pop;
mod resize;
mod tuple;
