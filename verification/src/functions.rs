//! The operations that take a function of the caller's, as free functions.
//!
//! A method of [`ArrayTools`](crate::ArrayTools) reaches its implementation
//! through a trait that has the function's type as a parameter. Verus follows
//! that path where the type is itself a type parameter of the caller, as it is
//! in generic code. Where the caller holds a closure or names a function, use
//! the functions of this module: they do what the methods of the same names
//! do, and state it over the predicates of [`model`](crate::model) directly.

use crate::model::{can_generate, can_map, can_zip_with, is_generated, is_map, is_zip_with};
use crate::traits::{ArrayGenerate, ArrayMap, ArrayZipWith};
use vstd::prelude::*;

verus! {

/// Builds an array by calling `f` once for each position, from the first to
/// the last.
pub fn generate<T, F: FnMut() -> T, const N: usize>(f: F) -> (out: [T; N])
    requires
        can_generate(f, N as nat),
    ensures
        is_generated(f, out),
{
    ArrayGenerate::array_generate(f)
}

/// Builds a new array by applying `f` to each element of `array`, from the
/// first to the last.
#[must_use]
pub fn map<T, U, F: FnMut(T) -> U, const N: usize>(array: [T; N], f: F) -> (out: [U; N])
    requires
        can_map(array, f),
    ensures
        is_map(array, f, out),
{
    ArrayMap::array_map(array, f)
}

/// Calls `f` on each element of `array`, from the first to the last.
pub fn for_each<T, F: FnMut(T) -> (), const N: usize>(array: [T; N], f: F)
    requires
        can_map(array, f),
    ensures
        forall|i: int| 0 <= i < N ==> call_ensures(f, (#[trigger] array[i],), ()),
{
    let done = ArrayMap::array_map(array, f);
    assert forall|i: int| 0 <= i < N implies call_ensures(f, (#[trigger] array[i],), ()) by {
        assert(done[i] == ());
    }
}

/// Combines each element of `array` with the element of `other` at the same
/// position by `f`, from the first position to the last.
#[must_use]
pub fn zip_with<T, U, V, F: FnMut(T, U) -> V, const N: usize>(
    array: [T; N],
    other: [U; N],
    f: F,
) -> (out: [V; N])
    requires
        can_zip_with(array, other, f),
    ensures
        is_zip_with(array, other, f, out),
{
    ArrayZipWith::array_zip_with(array, other, f)
}

} // verus!
