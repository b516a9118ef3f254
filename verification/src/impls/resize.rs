//! Adding and removing one element at either end, written once for every
//! pair of lengths that differ by one.

use crate::elements::{array_from_vec, fill_array, into_items, take_next};
use crate::model::{is_pop_back, is_pop_front, is_push_back, is_push_front};
use vstd::prelude::*;
use vstd::std_specs::iter::IteratorSpec;

verus! {

/// Moves the elements of `array` into `staged`, behind what it holds.
fn stage_all<T, const N: usize>(array: [T; N], staged: &mut Vec<T>)
    ensures
        final(staged)@ == old(staged)@ + array@,
{
    let ghost before = staged@;
    let mut items = into_items(array);
    let mut i: usize = 0;
    while i < N
        invariant
            i <= N,
            items.obeys_prophetic_iter_laws(),
            items.remaining() == array@.skip(i as int),
            staged@ == before + array@.take(i as int),
        decreases N - i,
    {
        let item = take_next(&mut items);
        staged.push(item);
        assert(array@.take(i + 1) == array@.take(i as int).push(array@[i as int]));
        i += 1;
    }
    assert(array@.take(N as int) == array@);
}

/// The array one longer than `array`, with `item` behind its elements.
pub(crate) fn append<T, const N: usize, const M: usize>(array: [T; N], item: T) -> (out: [T; M])
    requires
        M == N + 1,
    ensures
        is_push_back(array, item, out),
{
    let mut staged: Vec<T> = Vec::with_capacity(M);
    stage_all(array, &mut staged);
    staged.push(item);
    array_from_vec(staged)
}

/// The array one longer than `array`, with `item` before its elements.
pub(crate) fn prepend<T, const N: usize, const M: usize>(array: [T; N], item: T) -> (out: [T; M])
    requires
        M == N + 1,
    ensures
        is_push_front(array, item, out),
{
    let mut staged: Vec<T> = Vec::with_capacity(M);
    staged.push(item);
    stage_all(array, &mut staged);
    array_from_vec(staged)
}

/// The elements of `array` before the last, and the last.
pub(crate) fn split_last<T, const M: usize, const N: usize>(array: [T; M]) -> (out: ([T; N], T))
    requires
        M == N + 1,
    ensures
        is_pop_back(array, out),
{
    let mut items = into_items(array);
    let front = fill_array(&mut items).unwrap();
    let last = take_next(&mut items);
    (front, last)
}

/// The elements of `array` after the first, and the first.
pub(crate) fn split_first<T, const M: usize, const N: usize>(array: [T; M]) -> (out: ([T; N], T))
    requires
        M == N + 1,
    ensures
        is_pop_front(array, out),
{
    let mut items = into_items(array);
    let first = take_next(&mut items);
    let back = fill_array(&mut items).unwrap();
    assert(array@.drop_first().take(N as int) == array@.drop_first());
    (back, first)
}

} // verus!
