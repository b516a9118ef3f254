//! Moving elements out of arrays and into new ones.
//!
//! An array gives up its elements through its by-value iterator, front to back,
//! and a new array is filled from an iterator or from an index-to-element
//! function. The three calls that do so are the only code in this crate that is
//! not verified: Verus takes their contracts, stated here, on trust, and
//! proves everything else against them.

use vstd::prelude::*;
use vstd::std_specs::iter::IteratorSpec;

verus! {

/// The by-value iterator of an array, `core::array::IntoIter`. Verus sees
/// nothing inside it; what it will yield is known from `into_iter` below.
#[verifier::external_type_specification]
#[verifier::external_body]
#[verifier::reject_recursive_types(Item)]
pub struct ExArrayIntoIter<Item, const COUNT: usize>(core::array::IntoIter<Item, COUNT>);

/// Trusted of `IntoIterator::into_iter` on an array by value: the iterator
/// yields the elements of the array from the first to the last, and then ends.
pub assume_specification<Elem, const SIZE: usize>[ <[Elem; SIZE] as core::iter::IntoIterator>::into_iter ](
    array: [Elem; SIZE],
) -> (items: <[Elem; SIZE] as core::iter::IntoIterator>::IntoIter)
    ensures
        items.obeys_prophetic_iter_laws(),
        items.remaining() == array@,
;

/// Trusted of `array_init::array_init`: it calls `initializer` with the
/// indices below `SIZE` and no others, and the element at an index is what the
/// call with that index returned.
pub assume_specification<Init, Elem, const SIZE: usize>[ array_init::array_init::<Init, Elem, SIZE> ](
    initializer: Init,
) -> (out: [Elem; SIZE]) where Init: FnMut(usize) -> Elem
    requires
        forall|i: usize| i < SIZE ==> call_requires(initializer, (i,)),
    ensures
        forall|i: int| 0 <= i < SIZE ==> call_ensures(initializer, (i as usize,), #[trigger] out[i]),
;

/// Trusted of `array_init::from_iter`, called on an iterator that stays with
/// the caller: it takes items until the array is full or the iterator ends.
/// With `N` items or more to come the result holds the first `N` of them in
/// order and the iterator is left just behind them; with fewer the result is
/// `None`.
#[verifier::external_body]
pub(crate) fn fill_array<I, T, const N: usize>(items: &mut I) -> (out: Option<[T; N]>) where
    I: Iterator<Item = T>,

    ensures
        (*final(items)).obeys_prophetic_iter_laws() == (*old(items)).obeys_prophetic_iter_laws(),
        (*old(items)).obeys_prophetic_iter_laws() ==> match out {
            Some(array) => {
                &&& (*old(items)).remaining().len() >= N
                &&& array@ == (*old(items)).remaining().take(N as int)
                &&& (*final(items)).remaining() == (*old(items)).remaining().skip(N as int)
            },
            None => (*old(items)).remaining().len() < N,
        },
{
    array_init::from_iter(items)
}

/// The iterator that hands out the elements of `array`, from the first on.
pub(crate) fn into_items<T, const N: usize>(array: [T; N]) -> (items: core::array::IntoIter<T, N>)
    ensures
        items.obeys_prophetic_iter_laws(),
        items.remaining() == array@,
        items.remaining() == array@.skip(0),
{
    let items = array.into_iter();
    assert(array@.skip(0) == array@);
    items
}

/// Moves the next item out of an iterator that has one.
pub(crate) fn take_next<I: Iterator>(items: &mut I) -> (item: I::Item)
    requires
        (*old(items)).obeys_prophetic_iter_laws(),
        (*old(items)).remaining().len() > 0,
    ensures
        (*final(items)).obeys_prophetic_iter_laws(),
        item == (*old(items)).remaining()[0],
        (*final(items)).remaining() == (*old(items)).remaining().drop_first(),
{
    items.next().unwrap()
}

/// Moves the item at position `at` of `source` out of an iterator that has
/// handed out the items before it.
pub(crate) fn take_at<I: Iterator>(
    items: &mut I,
    Ghost(source): Ghost<Seq<I::Item>>,
    Ghost(at): Ghost<int>,
) -> (item: I::Item)
    requires
        (*old(items)).obeys_prophetic_iter_laws(),
        0 <= at < source.len(),
        (*old(items)).remaining() == source.skip(at),
    ensures
        (*final(items)).obeys_prophetic_iter_laws(),
        item == source[at],
        (*final(items)).remaining() == source.skip(at + 1),
{
    take_next(items)
}

/// The array that holds exactly the items of `staged`, in order.
pub(crate) fn array_from_vec<T, const N: usize>(staged: Vec<T>) -> (out: [T; N])
    requires
        staged.len() == N,
    ensures
        out@ == staged@,
{
    let mut items = staged.into_iter();
    fill_array(&mut items).unwrap()
}

} // verus!
