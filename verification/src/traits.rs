//! The capability contracts: one trait for each family of operations.
//!
//! Each trait is implemented for the arrays that support the operation and for
//! nothing else. A trait states what its operation returns through spec
//! functions that the implementation defines, so that code written against the
//! trait alone can still reason about the result.

use vstd::prelude::*;
use vstd::std_specs::iter::IteratorSpec;

verus! {

/// Marks the types that may implement [`ArrayTools`](crate::ArrayTools).
pub trait Sealed {

}

/// Conversion between an array and the homogeneous tuple of the same length.
pub trait ArrayTuple: Sized + Sealed {
    /// The tuple with as many components as the array has elements.
    type Tuple;

    /// The tuple whose component at each position is the array's element at
    /// that position.
    spec fn tuple_of(array: Self) -> Self::Tuple;

    /// No two arrays have the same tuple.
    proof fn lemma_tuple_of_injective(a: Self, b: Self)
        requires
            Self::tuple_of(a) == Self::tuple_of(b),
        ensures
            a == b,
    ;

    /// The array whose tuple is `tuple`.
    fn array_from_tuple(tuple: Self::Tuple) -> (out: Self)
        ensures
            Self::tuple_of(out) == tuple,
    ;

    /// The tuple of `self`.
    fn array_into_tuple(self) -> (out: Self::Tuple)
        ensures
            out == Self::tuple_of(self),
    ;
}

/// Building an array from the results of a producer.
pub trait ArrayGenerate<F>: Sized + Sealed {
    /// Whether `f` may be called as often as the array has elements.
    spec fn generate_requires(f: F) -> bool;

    /// Whether every element of `out` is a result of `f`.
    spec fn generate_ensures(f: F, out: Self) -> bool;

    /// Calls `f` once for each position, from the first to the last, and puts
    /// each result at its position.
    fn array_generate(f: F) -> (out: Self)
        requires
            Self::generate_requires(f),
        ensures
            Self::generate_ensures(f, out),
    ;
}

/// Building an array from one value.
pub trait ArrayRepeat<T>: Sized + Sealed {
    /// Whether the last element of `out` is `x` and every other one a clone of it.
    spec fn repeat_ensures(x: T, out: Self) -> bool;

    /// Puts a clone of `x` at every position but the last, and `x` itself there.
    fn array_repeat(x: T) -> (out: Self)
        ensures
            Self::repeat_ensures(x, out),
    ;
}

/// Building an array from the first items of an iterator.
pub trait ArrayFromIter<I: Iterator>: Sized + Sealed {
    /// The number of elements of every array of this type.
    spec fn length() -> nat;

    /// The elements of `array`, in order.
    spec fn items(array: Self) -> Seq<I::Item>;

    /// Takes items from `it` until the array is full. The result is the array
    /// of the first `length()` items, or `None` where `it` has fewer.
    fn array_from_iter(it: I) -> (out: Option<Self>)
        ensures
            it.obeys_prophetic_iter_laws() ==> match out {
                Some(array) => {
                    &&& it.remaining().len() >= Self::length()
                    &&& Self::items(array) == it.remaining().take(Self::length() as int)
                },
                None => it.remaining().len() < Self::length(),
            },
    ;
}

/// Building the array of its own positions.
pub trait ArrayIndices: Sized + Sealed {
    /// Whether every element of `out` is its own position.
    spec fn indices_ensures(out: Self) -> bool;

    /// The array `[0, 1, 2, ..]`.
    fn array_indices() -> (out: Self)
        ensures
            Self::indices_ensures(out),
    ;
}

/// Applying a function to every element.
pub trait ArrayMap<F>: Sized + Sealed {
    /// The array of the results.
    type Output;

    /// The type of one result.
    type OutputElement;

    /// Whether `f` may be called on every element of `array`.
    spec fn map_requires(array: Self, f: F) -> bool;

    /// Whether the element of `out` at each position is a result of `f` on the
    /// element of `array` at that position.
    spec fn map_ensures(array: Self, f: F, out: Self::Output) -> bool;

    /// Calls `f` on each element, from the first to the last, and puts each
    /// result at the position of its argument.
    fn array_map(array: Self, f: F) -> (out: Self::Output)
        requires
            Self::map_requires(array, f),
        ensures
            Self::map_ensures(array, f, out),
    ;
}

/// Pairing the elements of two arrays of one length.
pub trait ArrayZip<T>: Sized + Sealed {
    /// The array of the pairs.
    type Output;

    /// Whether the element of `out` at each position is the pair of the
    /// elements of `array` and of `other` at that position.
    spec fn zip_ensures(array: Self, other: T, out: Self::Output) -> bool;

    /// Pairs each element of `array` with the element of `other` at its position.
    fn array_zip(array: Self, other: T) -> (out: Self::Output)
        ensures
            Self::zip_ensures(array, other, out),
    ;
}

/// Combining the elements of two arrays of one length with a function.
pub trait ArrayZipWith<T, F>: Sized + Sealed {
    /// The array of the results.
    type Output;

    /// Whether `f` may be called on the elements of `array` and `other` at
    /// every position.
    spec fn zip_with_requires(array: Self, other: T, f: F) -> bool;

    /// Whether the element of `out` at each position is a result of `f` on the
    /// elements of `array` and of `other` at that position.
    spec fn zip_with_ensures(array: Self, other: T, f: F, out: Self::Output) -> bool;

    /// Calls `f` on the elements of `array` and `other` at each position, from
    /// the first to the last, and puts each result at that position.
    fn array_zip_with(array: Self, other: T, f: F) -> (out: Self::Output)
        requires
            Self::zip_with_requires(array, other, f),
        ensures
            Self::zip_with_ensures(array, other, f, out),
    ;
}

/// Borrowing every element of an array.
pub trait ArrayAsRef<'a>: Sized + Sealed {
    /// The array of the references.
    type Output: 'a;

    /// Whether the element of `out` at each position refers to the element of
    /// `array` at that position.
    spec fn as_ref_ensures(array: &'a Self, out: Self::Output) -> bool;

    /// One shared reference for each element, at the element's position.
    fn as_ref(array: &'a Self) -> (out: Self::Output)
        ensures
            Self::as_ref_ensures(array, out),
    ;
}

/// Borrowing every element of an array for writing.
pub trait ArrayAsMut<'a>: Sized + Sealed {
    /// The array of the references.
    type Output: 'a;

    /// The type of one element.
    type Element: 'a;

    /// The number of elements of every array of this type.
    spec fn length() -> nat;

    /// The element of `array` at position `i`.
    spec fn element(array: Self, i: int) -> Self::Element;

    /// The reference that `out` holds at position `i`.
    spec fn reference(out: Self::Output, i: int) -> &'a mut Self::Element;

    /// One exclusive reference for each element, at the element's position:
    /// it reads what the array held there, and what the caller leaves behind
    /// it is what the array holds there once the borrow has ended.
    fn as_mut(array: &'a mut Self) -> (out: Self::Output)
        ensures
            forall|i: int|
                0 <= i < Self::length() ==> *(#[trigger] Self::reference(out, i))
                    == Self::element(*old(array), i),
            forall|i: int|
                #![trigger Self::element(*final(array), i)]
                #![trigger Self::reference(out, i)]
                0 <= i < Self::length() ==> Self::element(*final(array), i) == *final(
                    Self::reference(out, i)),
    ;
}

/// Appending and prepending one element.
pub trait ArrayPush<T>: Sized + Sealed {
    /// The array that is one element longer.
    type Output;

    /// Whether `out` holds the elements of `array` and then `item`.
    spec fn push_back_ensures(array: Self, item: T, out: Self::Output) -> bool;

    /// Whether `out` holds `item` and then the elements of `array`.
    spec fn push_front_ensures(array: Self, item: T, out: Self::Output) -> bool;

    /// The elements of `array`, in their order, followed by `item`.
    fn array_push_back(array: Self, item: T) -> (out: Self::Output)
        ensures
            Self::push_back_ensures(array, item, out),
    ;

    /// `item`, followed by the elements of `array` in their order.
    fn array_push_front(array: Self, item: T) -> (out: Self::Output)
        ensures
            Self::push_front_ensures(array, item, out),
    ;
}

/// Splitting off the last or the first element.
pub trait ArrayPop<T>: Sized + Sealed {
    /// The array that is one element shorter.
    type Output;

    /// Whether `out` is the elements of `array` before the last, and the last.
    spec fn pop_back_ensures(array: Self, out: (Self::Output, T)) -> bool;

    /// Whether `out` is the elements of `array` after the first, and the first.
    spec fn pop_front_ensures(array: Self, out: (Self::Output, T)) -> bool;

    /// The elements before the last, in their order, and the last element.
    fn array_pop_back(array: Self) -> (out: (Self::Output, T))
        ensures
            Self::pop_back_ensures(array, out),
    ;

    /// The elements after the first, in their order, and the first element.
    fn array_pop_front(array: Self) -> (out: (Self::Output, T))
        ensures
            Self::pop_front_ensures(array, out),
    ;
}

} // verus!
