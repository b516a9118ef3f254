//! Operations on fixed-length arrays, with contracts that Verus proves.
//!
//! [`ArrayTools`] is the one trait to import. Its methods build arrays
//! (`generate`, `repeat`, `from_iter`, `indices`), transform them (`map`,
//! `zip`, `zip_with`, `for_each`), borrow their elements (`as_ref_array`,
//! `as_mut_array`), convert them to and from tuples, and add or remove an
//! element at either end. Most of them take the array by value.
//!
//! ```
//! use arraytools::ArrayTools;
//!
//! assert_eq!([1, 2].zip(["one", "two"]), [(1, "one"), (2, "two")]);
//! assert_eq!([1, 2].push_back(10), [1, 2, 10]);
//! assert_eq!([1, 2, 3].into_tuple(), (1, 2, 3));
//! assert_eq!(<[usize; 4]>::indices(), [0, 1, 2, 3]);
//! ```
//!
//! # Contracts
//!
//! Every method states what it returns over the array's view, the sequence of
//! its elements. The predicates that the contracts are made of are in
//! [`model`]. Where a method calls a function that the caller supplies, the
//! contract is stated over that function's own contract: each result is one
//! that the function may return for the argument it was given. [`laws`] holds
//! what follows from the contracts of several operations together.
//!
//! Verified code that holds a closure calls the functions of [`functions`] in
//! place of the methods that take one.
//!
//! # Lengths
//!
//! The operations that keep the length work for every length. Tuples, and the
//! operations that change the length by one, are there for the lengths up to
//! thirty-two.
//!
//! # Allocation
//!
//! An operation that computes its elements one after another collects them in
//! a `Vec` before it makes the array of them.

use crate::traits::Sealed;
pub use crate::traits::{
    ArrayAsMut, ArrayAsRef, ArrayFromIter, ArrayGenerate, ArrayIndices, ArrayMap, ArrayPop,
    ArrayPush, ArrayRepeat, ArrayTuple, ArrayZip, ArrayZipWith,
};
use vstd::prelude::*;
use vstd::std_specs::iter::IteratorSpec;

mod elements;
pub mod functions;
mod impls;
pub mod laws;
pub mod model;
mod traits;

verus! {

/// The operations on fixed-length arrays, as methods.
///
/// Each method with a body hands its arguments to the capability contract of
/// the same family, and is there for the arrays that implement that contract.
/// The trait is sealed: arrays implement it and no other type can.
pub trait ArrayTools: Sized + Sealed {
    /// The type of the elements.
    type Element;

    /// The number of elements.
    const LEN: usize;

    /// The elements, in order.
    spec fn elements(&self) -> Seq<Self::Element>;

    /// The whole array as a slice.
    fn as_slice(&self) -> (out: &[Self::Element])
        ensures
            out@ == self.elements(),
            out@.len() == Self::LEN,
    ;

    /// The whole array as a slice that can be written through.
    fn as_mut_slice(&mut self) -> (out: &mut [Self::Element])
        ensures
            out@ == old(self).elements(),
            out@.len() == Self::LEN,
            final(self).elements() == final(out)@,
    ;

    /// The array whose elements are the components of `tuple`, position by
    /// position.
    fn from_tuple(tuple: <Self as ArrayTuple>::Tuple) -> (out: Self) where Self: ArrayTuple
        ensures
            <Self as ArrayTuple>::tuple_of(out) == tuple,
    {
        ArrayTuple::array_from_tuple(tuple)
    }

    /// The tuple whose components are the elements of the array, position by
    /// position.
    fn into_tuple(self) -> (out: <Self as ArrayTuple>::Tuple) where Self: ArrayTuple
        ensures
            out == <Self as ArrayTuple>::tuple_of(self),
    {
        ArrayTuple::array_into_tuple(self)
    }

    /// Builds an array by calling `f` once for each position, from the first
    /// to the last.
    ///
    /// In verified code that holds `f` as a closure, call
    /// [`functions::generate`](crate::functions::generate).
    fn generate<F>(f: F) -> (out: Self) where Self: ArrayGenerate<F>
        requires
            <Self as ArrayGenerate<F>>::generate_requires(f),
        ensures
            <Self as ArrayGenerate<F>>::generate_ensures(f, out),
    {
        ArrayGenerate::array_generate(f)
    }

    /// Builds an array that holds `x` at its last position and a clone of `x`
    /// at every other one. With no position at all, `x` is dropped.
    fn repeat<T: Clone>(x: T) -> (out: Self) where Self: ArrayRepeat<T>
        ensures
            <Self as ArrayRepeat<T>>::repeat_ensures(x, out),
    {
        ArrayRepeat::array_repeat(x)
    }

    /// Builds an array from the first items of `it`, or returns `None` where
    /// `it` ends before the array is full.
    fn from_iter<I: Iterator>(it: I) -> (out: Option<Self>) where Self: ArrayFromIter<I>
        ensures
            it.obeys_prophetic_iter_laws() ==> match out {
                Some(array) => {
                    &&& it.remaining().len() >= <Self as ArrayFromIter<I>>::length()
                    &&& <Self as ArrayFromIter<I>>::items(array) == it.remaining().take(
                        <Self as ArrayFromIter<I>>::length() as int,
                    )
                },
                None => it.remaining().len() < <Self as ArrayFromIter<I>>::length(),
            },
    {
        ArrayFromIter::array_from_iter(it)
    }

    /// Builds the array `[0, 1, 2, ..]`.
    fn indices() -> (out: Self) where Self: ArrayIndices
        ensures
            <Self as ArrayIndices>::indices_ensures(out),
    {
        ArrayIndices::array_indices()
    }

    /// Builds a new array by applying `f` to each element, from the first to
    /// the last.
    ///
    /// In verified code that holds `f` as a closure, call
    /// [`functions::map`](crate::functions::map).
    #[must_use]
    fn map<F>(self, f: F) -> (out: <Self as ArrayMap<F>>::Output) where Self: ArrayMap<F>
        requires
            <Self as ArrayMap<F>>::map_requires(self, f),
        ensures
            <Self as ArrayMap<F>>::map_ensures(self, f, out),
    {
        ArrayMap::array_map(self, f)
    }

    /// Calls `f` on each element, from the first to the last.
    ///
    /// In verified code that holds `f` as a closure, call
    /// [`functions::for_each`](crate::functions::for_each).
    fn for_each<F>(self, f: F) where Self: ArrayMap<F, OutputElement = ()>
        requires
            <Self as ArrayMap<F>>::map_requires(self, f),
        ensures
            exists|out: <Self as ArrayMap<F>>::Output|
                <Self as ArrayMap<F>>::map_ensures(self, f, out),
    {
        let _ = ArrayMap::array_map(self, f);
    }

    /// Pairs each element with the element of `other` at the same position.
    fn zip<T>(self, other: T) -> (out: <Self as ArrayZip<T>>::Output) where Self: ArrayZip<T>
        ensures
            <Self as ArrayZip<T>>::zip_ensures(self, other, out),
    {
        ArrayZip::array_zip(self, other)
    }

    /// Combines each element with the element of `other` at the same position
    /// by `f`, from the first position to the last.
    ///
    /// In verified code that holds `f` as a closure, call
    /// [`functions::zip_with`](crate::functions::zip_with).
    fn zip_with<T, F>(self, other: T, f: F) -> (out: <Self as ArrayZipWith<T, F>>::Output) where
        Self: ArrayZipWith<T, F>,

        requires
            <Self as ArrayZipWith<T, F>>::zip_with_requires(self, other, f),
        ensures
            <Self as ArrayZipWith<T, F>>::zip_with_ensures(self, other, f, out),
    {
        ArrayZipWith::array_zip_with(self, other, f)
    }

    /// An array of shared references to the elements, each at the position of
    /// its element.
    fn as_ref_array<'a>(&'a self) -> (out: <Self as ArrayAsRef<'a>>::Output) where
        Self: ArrayAsRef<'a>,

        ensures
            <Self as ArrayAsRef<'a>>::as_ref_ensures(self, out),
    {
        ArrayAsRef::as_ref(self)
    }

    /// An array of exclusive references to the elements, each at the position
    /// of its element.
    fn as_mut_array<'a>(&'a mut self) -> (out: <Self as ArrayAsMut<'a>>::Output) where
        Self: ArrayAsMut<'a>,

        ensures
            forall|i: int|
                0 <= i < <Self as ArrayAsMut<'a>>::length() ==> *(
                #[trigger] <Self as ArrayAsMut<'a>>::reference(out, i))
                    == <Self as ArrayAsMut<'a>>::element(*old(self), i),
            forall|i: int|
                #![trigger <Self as ArrayAsMut<'a>>::element(*final(self), i)]
                #![trigger <Self as ArrayAsMut<'a>>::reference(out, i)]
                0 <= i < <Self as ArrayAsMut<'a>>::length() ==> <Self as ArrayAsMut<'a>>::element(
                    *final(self),
                    i,
                ) == *final(<Self as ArrayAsMut<'a>>::reference(out, i)),
    {
        ArrayAsMut::as_mut(self)
    }

    /// The array with `item` added behind the last element.
    #[must_use]
    fn push_back<U>(self, item: U) -> (out: <Self as ArrayPush<U>>::Output) where
        Self: ArrayPush<U>,

        ensures
            <Self as ArrayPush<U>>::push_back_ensures(self, item, out),
    {
        ArrayPush::array_push_back(self, item)
    }

    /// The array with `item` added before the first element.
    #[must_use]
    fn push_front<U>(self, item: U) -> (out: <Self as ArrayPush<U>>::Output) where
        Self: ArrayPush<U>,

        ensures
            <Self as ArrayPush<U>>::push_front_ensures(self, item, out),
    {
        ArrayPush::array_push_front(self, item)
    }

    /// The array without its last element, and that element.
    #[must_use]
    fn pop_back<U>(self) -> (out: (<Self as ArrayPop<U>>::Output, U)) where Self: ArrayPop<U>
        ensures
            <Self as ArrayPop<U>>::pop_back_ensures(self, out),
    {
        ArrayPop::array_pop_back(self)
    }

    /// The array without its first element, and that element.
    #[must_use]
    fn pop_front<U>(self) -> (out: (<Self as ArrayPop<U>>::Output, U)) where Self: ArrayPop<U>
        ensures
            <Self as ArrayPop<U>>::pop_front_ensures(self, out),
    {
        ArrayPop::array_pop_front(self)
    }
}

impl<T, const N: usize> Sealed for [T; N] {

}

impl<T, const N: usize> ArrayTools for [T; N] {
    type Element = T;

    const LEN: usize = N;

    open spec fn elements(&self) -> Seq<T> {
        self@
    }

    fn as_slice(&self) -> (out: &[T]) {
        self
    }

    fn as_mut_slice(&mut self) -> (out: &mut [T]) {
        self
    }
}

} // verus!
