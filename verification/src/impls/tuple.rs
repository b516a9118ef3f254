//! Tuples for each length.
//!
//! An array of length `N` corresponds to the tuple of `N` components of its
//! element type, for `N` from 0 to 32: position by position, in both
//! directions. A tuple's type spells out its components, so each length has an
//! implementation of its own.

use crate::elements::{into_items, take_at};
use crate::traits::ArrayTuple;
use vstd::prelude::*;

verus! {

impl<T> ArrayTuple for [T; 0] {
    type Tuple = ();

    open spec fn tuple_of(array: Self) -> Self::Tuple {
        ()
    }

    proof fn lemma_tuple_of_injective(a: Self, b: Self) {
        assert(a =~= b);
    }

    fn array_from_tuple(tuple: Self::Tuple) -> (out: Self) {
        []
    }

    fn array_into_tuple(self) -> (out: Self::Tuple) {
        ()
    }
}

impl<T> ArrayTuple for [T; 1] {
    type Tuple = (T,);

    open spec fn tuple_of(array: Self) -> Self::Tuple {
        (array[0],)
    }

    proof fn lemma_tuple_of_injective(a: Self, b: Self) {
        assert(a =~= b);
    }

    fn array_from_tuple(tuple: Self::Tuple) -> (out: Self) {
        let (a0,) = tuple;
        [a0]
    }

    fn array_into_tuple(self) -> (out: Self::Tuple) {
        let ghost source = self@;
        let mut items = into_items(self);
        let a0 = take_at(&mut items, Ghost(source), Ghost(0));
        (a0,)
    }
}

impl<T> ArrayTuple for [T; 2] {
    type Tuple = (T, T);

    open spec fn tuple_of(array: Self) -> Self::Tuple {
        (array[0], array[1])
    }

    proof fn lemma_tuple_of_injective(a: Self, b: Self) {
        assert(a =~= b);
    }

    fn array_from_tuple(tuple: Self::Tuple) -> (out: Self) {
        let (a0, a1) = tuple;
        [a0, a1]
    }

    fn array_into_tuple(self) -> (out: Self::Tuple) {
        let ghost source = self@;
        let mut items = into_items(self);
        let a0 = take_at(&mut items, Ghost(source), Ghost(0));
        let a1 = take_at(&mut items, Ghost(source), Ghost(1));
        (a0, a1)
    }
}

impl<T> ArrayTuple for [T; 3] {
    type Tuple = (T, T, T);

    open spec fn tuple_of(array: Self) -> Self::Tuple {
        (array[0], array[1], array[2])
    }

    proof fn lemma_tuple_of_injective(a: Self, b: Self) {
        assert(a =~= b);
    }

    fn array_from_tuple(tuple: Self::Tuple) -> (out: Self) {
        let (a0, a1, a2) = tuple;
        [a0, a1, a2]
    }

    fn array_into_tuple(self) -> (out: Self::Tuple) {
        let ghost source = self@;
        let mut items = into_items(self);
        let a0 = take_at(&mut items, Ghost(source), Ghost(0));
        let a1 = take_at(&mut items, Ghost(source), Ghost(1));
        let a2 = take_at(&mut items, Ghost(source), Ghost(2));
        (a0, a1, a2)
    }
}

impl<T> ArrayTuple for [T; 4] {
    type Tuple = (T, T, T, T);

    open spec fn tuple_of(array: Self) -> Self::Tuple {
        (array[0], array[1], array[2], array[3])
    }

    proof fn lemma_tuple_of_injective(a: Self, b: Self) {
        assert(a =~= b);
    }

    fn array_from_tuple(tuple: Self::Tuple) -> (out: Self) {
        let (a0, a1, a2, a3) = tuple;
        [a0, a1, a2, a3]
    }

    fn array_into_tuple(self) -> (out: Self::Tuple) {
        let ghost source = self@;
        let mut items = into_items(self);
        let a0 = take_at(&mut items, Ghost(source), Ghost(0));
        let a1 = take_at(&mut items, Ghost(source), Ghost(1));
        let a2 = take_at(&mut items, Ghost(source), Ghost(2));
        let a3 = take_at(&mut items, Ghost(source), Ghost(3));
        (a0, a1, a2, a3)
    }
}

impl<T> ArrayTuple for [T; 5] {
    type Tuple = (T, T, T, T, T);

    open spec fn tuple_of(array: Self) -> Self::Tuple {
        (array[0], array[1], array[2], array[3], array[4])
    }

    proof fn lemma_tuple_of_injective(a: Self, b: Self) {
        assert(a =~= b);
    }

    fn array_from_tuple(tuple: Self::Tuple) -> (out: Self) {
        let (a0, a1, a2, a3, a4) = tuple;
        [a0, a1, a2, a3, a4]
    }

    fn array_into_tuple(self) -> (out: Self::Tuple) {
        let ghost source = self@;
        let mut items = into_items(self);
        let a0 = take_at(&mut items, Ghost(source), Ghost(0));
        let a1 = take_at(&mut items, Ghost(source), Ghost(1));
        let a2 = take_at(&mut items, Ghost(source), Ghost(2));
        let a3 = take_at(&mut items, Ghost(source), Ghost(3));
        let a4 = take_at(&mut items, Ghost(source), Ghost(4));
        (a0, a1, a2, a3, a4)
    }
}

impl<T> ArrayTuple for [T; 6] {
    type Tuple = (T, T, T, T, T, T);

    open spec fn tuple_of(array: Self) -> Self::Tuple {
        (array[0], array[1], array[2], array[3], array[4], array[5])
    }

    proof fn lemma_tuple_of_injective(a: Self, b: Self) {
        assert(a =~= b);
    }

    fn array_from_tuple(tuple: Self::Tuple) -> (out: Self) {
        let (a0, a1, a2, a3, a4, a5) = tuple;
        [a0, a1, a2, a3, a4, a5]
    }

    fn array_into_tuple(self) -> (out: Self::Tuple) {
        let ghost source = self@;
        let mut items = into_items(self);
        let a0 = take_at(&mut items, Ghost(source), Ghost(0));
        let a1 = take_at(&mut items, Ghost(source), Ghost(1));
        let a2 = take_at(&mut items, Ghost(source), Ghost(2));
        let a3 = take_at(&mut items, Ghost(source), Ghost(3));
        let a4 = take_at(&mut items, Ghost(source), Ghost(4));
        let a5 = take_at(&mut items, Ghost(source), Ghost(5));
        (a0, a1, a2, a3, a4, a5)
    }
}

impl<T> ArrayTuple for [T; 7] {
    type Tuple = (T, T, T, T, T, T, T);

    open spec fn tuple_of(array: Self) -> Self::Tuple {
        (array[0], array[1], array[2], array[3], array[4], array[5], array[6])
    }

    proof fn lemma_tuple_of_injective(a: Self, b: Self) {
        assert(a =~= b);
    }

    fn array_from_tuple(tuple: Self::Tuple) -> (out: Self) {
        let (a0, a1, a2, a3, a4, a5, a6) = tuple;
        [a0, a1, a2, a3, a4, a5, a6]
    }

    fn array_into_tuple(self) -> (out: Self::Tuple) {
        let ghost source = self@;
        let mut items = into_items(self);
        let a0 = take_at(&mut items, Ghost(source), Ghost(0));
        let a1 = take_at(&mut items, Ghost(source), Ghost(1));
        let a2 = take_at(&mut items, Ghost(source), Ghost(2));
        let a3 = take_at(&mut items, Ghost(source), Ghost(3));
        let a4 = take_at(&mut items, Ghost(source), Ghost(4));
        let a5 = take_at(&mut items, Ghost(source), Ghost(5));
        let a6 = take_at(&mut items, Ghost(source), Ghost(6));
        (a0, a1, a2, a3, a4, a5, a6)
    }
}

impl<T> ArrayTuple for [T; 8] {
    type Tuple = (T, T, T, T, T, T, T, T);

    open spec fn tuple_of(array: Self) -> Self::Tuple {
        (array[0], array[1], array[2], array[3], array[4], array[5], array[6], array[7])
    }

    proof fn lemma_tuple_of_injective(a: Self, b: Self) {
        assert(a =~= b);
    }

    fn array_from_tuple(tuple: Self::Tuple) -> (out: Self) {
        let (a0, a1, a2, a3, a4, a5, a6, a7) = tuple;
        [a0, a1, a2, a3, a4, a5, a6, a7]
    }

    fn array_into_tuple(self) -> (out: Self::Tuple) {
        let ghost source = self@;
        let mut items = into_items(self);
        let a0 = take_at(&mut items, Ghost(source), Ghost(0));
        let a1 = take_at(&mut items, Ghost(source), Ghost(1));
        let a2 = take_at(&mut items, Ghost(source), Ghost(2));
        let a3 = take_at(&mut items, Ghost(source), Ghost(3));
        let a4 = take_at(&mut items, Ghost(source), Ghost(4));
        let a5 = take_at(&mut items, Ghost(source), Ghost(5));
        let a6 = take_at(&mut items, Ghost(source), Ghost(6));
        let a7 = take_at(&mut items, Ghost(source), Ghost(7));
        (a0, a1, a2, a3, a4, a5, a6, a7)
    }
}

impl<T> ArrayTuple for [T; 9] {
    type Tuple = (T, T, T, T, T, T, T, T, T);

    open spec fn tuple_of(array: Self) -> Self::Tuple {
        (array[0], array[1], array[2], array[3], array[4], array[5], array[6], array[7], array[8])
    }

    proof fn lemma_tuple_of_injective(a: Self, b: Self) {
        assert(a =~= b);
    }

    fn array_from_tuple(tuple: Self::Tuple) -> (out: Self) {
        let (a0, a1, a2, a3, a4, a5, a6, a7, a8) = tuple;
        [a0, a1, a2, a3, a4, a5, a6, a7, a8]
    }

    fn array_into_tuple(self) -> (out: Self::Tuple) {
        let ghost source = self@;
        let mut items = into_items(self);
        let a0 = take_at(&mut items, Ghost(source), Ghost(0));
        let a1 = take_at(&mut items, Ghost(source), Ghost(1));
        let a2 = take_at(&mut items, Ghost(source), Ghost(2));
        let a3 = take_at(&mut items, Ghost(source), Ghost(3));
        let a4 = take_at(&mut items, Ghost(source), Ghost(4));
        let a5 = take_at(&mut items, Ghost(source), Ghost(5));
        let a6 = take_at(&mut items, Ghost(source), Ghost(6));
        let a7 = take_at(&mut items, Ghost(source), Ghost(7));
        let a8 = take_at(&mut items, Ghost(source), Ghost(8));
        (a0, a1, a2, a3, a4, a5, a6, a7, a8)
    }
}

impl<T> ArrayTuple for [T; 10] {
    type Tuple = (T, T, T, T, T, T, T, T, T, T);

    open spec fn tuple_of(array: Self) -> Self::Tuple {
        (
            array[0], array[1], array[2], array[3], array[4], array[5], array[6], array[7],
            array[8], array[9],
        )
    }

    proof fn lemma_tuple_of_injective(a: Self, b: Self) {
        assert(a =~= b);
    }

    fn array_from_tuple(tuple: Self::Tuple) -> (out: Self) {
        let (a0, a1, a2, a3, a4, a5, a6, a7, a8, a9) = tuple;
        [a0, a1, a2, a3, a4, a5, a6, a7, a8, a9]
    }

    fn array_into_tuple(self) -> (out: Self::Tuple) {
        let ghost source = self@;
        let mut items = into_items(self);
        let a0 = take_at(&mut items, Ghost(source), Ghost(0));
        let a1 = take_at(&mut items, Ghost(source), Ghost(1));
        let a2 = take_at(&mut items, Ghost(source), Ghost(2));
        let a3 = take_at(&mut items, Ghost(source), Ghost(3));
        let a4 = take_at(&mut items, Ghost(source), Ghost(4));
        let a5 = take_at(&mut items, Ghost(source), Ghost(5));
        let a6 = take_at(&mut items, Ghost(source), Ghost(6));
        let a7 = take_at(&mut items, Ghost(source), Ghost(7));
        let a8 = take_at(&mut items, Ghost(source), Ghost(8));
        let a9 = take_at(&mut items, Ghost(source), Ghost(9));
        (a0, a1, a2, a3, a4, a5, a6, a7, a8, a9)
    }
}

impl<T> ArrayTuple for [T; 11] {
    type Tuple = (T, T, T, T, T, T, T, T, T, T, T);

    open spec fn tuple_of(array: Self) -> Self::Tuple {
        (
            array[0], array[1], array[2], array[3], array[4], array[5], array[6], array[7],
            array[8], array[9], array[10],
        )
    }

    proof fn lemma_tuple_of_injective(a: Self, b: Self) {
        assert(a =~= b);
    }

    fn array_from_tuple(tuple: Self::Tuple) -> (out: Self) {
        let (a0, a1, a2, a3, a4, a5, a6, a7, a8, a9, a10) = tuple;
        [a0, a1, a2, a3, a4, a5, a6, a7, a8, a9, a10]
    }

    fn array_into_tuple(self) -> (out: Self::Tuple) {
        let ghost source = self@;
        let mut items = into_items(self);
        let a0 = take_at(&mut items, Ghost(source), Ghost(0));
        let a1 = take_at(&mut items, Ghost(source), Ghost(1));
        let a2 = take_at(&mut items, Ghost(source), Ghost(2));
        let a3 = take_at(&mut items, Ghost(source), Ghost(3));
        let a4 = take_at(&mut items, Ghost(source), Ghost(4));
        let a5 = take_at(&mut items, Ghost(source), Ghost(5));
        let a6 = take_at(&mut items, Ghost(source), Ghost(6));
        let a7 = take_at(&mut items, Ghost(source), Ghost(7));
        let a8 = take_at(&mut items, Ghost(source), Ghost(8));
        let a9 = take_at(&mut items, Ghost(source), Ghost(9));
        let a10 = take_at(&mut items, Ghost(source), Ghost(10));
        (a0, a1, a2, a3, a4, a5, a6, a7, a8, a9, a10)
    }
}

impl<T> ArrayTuple for [T; 12] {
    type Tuple = (T, T, T, T, T, T, T, T, T, T, T, T);

    open spec fn tuple_of(array: Self) -> Self::Tuple {
        (
            array[0], array[1], array[2], array[3], array[4], array[5], array[6], array[7],
            array[8], array[9], array[10], array[11],
        )
    }

    proof fn lemma_tuple_of_injective(a: Self, b: Self) {
        assert(a =~= b);
    }

    fn array_from_tuple(tuple: Self::Tuple) -> (out: Self) {
        let (a0, a1, a2, a3, a4, a5, a6, a7, a8, a9, a10, a11) = tuple;
        [a0, a1, a2, a3, a4, a5, a6, a7, a8, a9, a10, a11]
    }

    fn array_into_tuple(self) -> (out: Self::Tuple) {
        let ghost source = self@;
        let mut items = into_items(self);
        let a0 = take_at(&mut items, Ghost(source), Ghost(0));
        let a1 = take_at(&mut items, Ghost(source), Ghost(1));
        let a2 = take_at(&mut items, Ghost(source), Ghost(2));
        let a3 = take_at(&mut items, Ghost(source), Ghost(3));
        let a4 = take_at(&mut items, Ghost(source), Ghost(4));
        let a5 = take_at(&mut items, Ghost(source), Ghost(5));
        let a6 = take_at(&mut items, Ghost(source), Ghost(6));
        let a7 = take_at(&mut items, Ghost(source), Ghost(7));
        let a8 = take_at(&mut items, Ghost(source), Ghost(8));
        let a9 = take_at(&mut items, Ghost(source), Ghost(9));
        let a10 = take_at(&mut items, Ghost(source), Ghost(10));
        let a11 = take_at(&mut items, Ghost(source), Ghost(11));
        (a0, a1, a2, a3, a4, a5, a6, a7, a8, a9, a10, a11)
    }
}

impl<T> ArrayTuple for [T; 13] {
    type Tuple = (T, T, T, T, T, T, T, T, T, T, T, T, T);

    open spec fn tuple_of(array: Self) -> Self::Tuple {
        (
            array[0], array[1], array[2], array[3], array[4], array[5], array[6], array[7],
            array[8], array[9], array[10], array[11], array[12],
        )
    }

    proof fn lemma_tuple_of_injective(a: Self, b: Self) {
        assert(a =~= b);
    }

    fn array_from_tuple(tuple: Self::Tuple) -> (out: Self) {
        let (a0, a1, a2, a3, a4, a5, a6, a7, a8, a9, a10, a11, a12) = tuple;
        [a0, a1, a2, a3, a4, a5, a6, a7, a8, a9, a10, a11, a12]
    }

    fn array_into_tuple(self) -> (out: Self::Tuple) {
        let ghost source = self@;
        let mut items = into_items(self);
        let a0 = take_at(&mut items, Ghost(source), Ghost(0));
        let a1 = take_at(&mut items, Ghost(source), Ghost(1));
        let a2 = take_at(&mut items, Ghost(source), Ghost(2));
        let a3 = take_at(&mut items, Ghost(source), Ghost(3));
        let a4 = take_at(&mut items, Ghost(source), Ghost(4));
        let a5 = take_at(&mut items, Ghost(source), Ghost(5));
        let a6 = take_at(&mut items, Ghost(source), Ghost(6));
        let a7 = take_at(&mut items, Ghost(source), Ghost(7));
        let a8 = take_at(&mut items, Ghost(source), Ghost(8));
        let a9 = take_at(&mut items, Ghost(source), Ghost(9));
        let a10 = take_at(&mut items, Ghost(source), Ghost(10));
        let a11 = take_at(&mut items, Ghost(source), Ghost(11));
        let a12 = take_at(&mut items, Ghost(source), Ghost(12));
        (a0, a1, a2, a3, a4, a5, a6, a7, a8, a9, a10, a11, a12)
    }
}

impl<T> ArrayTuple for [T; 14] {
    type Tuple = (T, T, T, T, T, T, T, T, T, T, T, T, T, T);

    open spec fn tuple_of(array: Self) -> Self::Tuple {
        (
            array[0], array[1], array[2], array[3], array[4], array[5], array[6], array[7],
            array[8], array[9], array[10], array[11], array[12], array[13],
        )
    }

    proof fn lemma_tuple_of_injective(a: Self, b: Self) {
        assert(a =~= b);
    }

    fn array_from_tuple(tuple: Self::Tuple) -> (out: Self) {
        let (a0, a1, a2, a3, a4, a5, a6, a7, a8, a9, a10, a11, a12, a13) = tuple;
        [a0, a1, a2, a3, a4, a5, a6, a7, a8, a9, a10, a11, a12, a13]
    }

    fn array_into_tuple(self) -> (out: Self::Tuple) {
        let ghost source = self@;
        let mut items = into_items(self);
        let a0 = take_at(&mut items, Ghost(source), Ghost(0));
        let a1 = take_at(&mut items, Ghost(source), Ghost(1));
        let a2 = take_at(&mut items, Ghost(source), Ghost(2));
        let a3 = take_at(&mut items, Ghost(source), Ghost(3));
        let a4 = take_at(&mut items, Ghost(source), Ghost(4));
        let a5 = take_at(&mut items, Ghost(source), Ghost(5));
        let a6 = take_at(&mut items, Ghost(source), Ghost(6));
        let a7 = take_at(&mut items, Ghost(source), Ghost(7));
        let a8 = take_at(&mut items, Ghost(source), Ghost(8));
        let a9 = take_at(&mut items, Ghost(source), Ghost(9));
        let a10 = take_at(&mut items, Ghost(source), Ghost(10));
        let a11 = take_at(&mut items, Ghost(source), Ghost(11));
        let a12 = take_at(&mut items, Ghost(source), Ghost(12));
        let a13 = take_at(&mut items, Ghost(source), Ghost(13));
        (a0, a1, a2, a3, a4, a5, a6, a7, a8, a9, a10, a11, a12, a13)
    }
}

impl<T> ArrayTuple for [T; 15] {
    type Tuple = (T, T, T, T, T, T, T, T, T, T, T, T, T, T, T);

    open spec fn tuple_of(array: Self) -> Self::Tuple {
        (
            array[0], array[1], array[2], array[3], array[4], array[5], array[6], array[7],
            array[8], array[9], array[10], array[11], array[12], array[13], array[14],
        )
    }

    proof fn lemma_tuple_of_injective(a: Self, b: Self) {
        assert(a =~= b);
    }

    fn array_from_tuple(tuple: Self::Tuple) -> (out: Self) {
        let (a0, a1, a2, a3, a4, a5, a6, a7, a8, a9, a10, a11, a12, a13, a14) = tuple;
        [a0, a1, a2, a3, a4, a5, a6, a7, a8, a9, a10, a11, a12, a13, a14]
    }

    fn array_into_tuple(self) -> (out: Self::Tuple) {
        let ghost source = self@;
        let mut items = into_items(self);
        let a0 = take_at(&mut items, Ghost(source), Ghost(0));
        let a1 = take_at(&mut items, Ghost(source), Ghost(1));
        let a2 = take_at(&mut items, Ghost(source), Ghost(2));
        let a3 = take_at(&mut items, Ghost(source), Ghost(3));
        let a4 = take_at(&mut items, Ghost(source), Ghost(4));
        let a5 = take_at(&mut items, Ghost(source), Ghost(5));
        let a6 = take_at(&mut items, Ghost(source), Ghost(6));
        let a7 = take_at(&mut items, Ghost(source), Ghost(7));
        let a8 = take_at(&mut items, Ghost(source), Ghost(8));
        let a9 = take_at(&mut items, Ghost(source), Ghost(9));
        let a10 = take_at(&mut items, Ghost(source), Ghost(10));
        let a11 = take_at(&mut items, Ghost(source), Ghost(11));
        let a12 = take_at(&mut items, Ghost(source), Ghost(12));
        let a13 = take_at(&mut items, Ghost(source), Ghost(13));
        let a14 = take_at(&mut items, Ghost(source), Ghost(14));
        (a0, a1, a2, a3, a4, a5, a6, a7, a8, a9, a10, a11, a12, a13, a14)
    }
}

impl<T> ArrayTuple for [T; 16] {
    type Tuple = (T, T, T, T, T, T, T, T, T, T, T, T, T, T, T, T);

    open spec fn tuple_of(array: Self) -> Self::Tuple {
        (
            array[0], array[1], array[2], array[3], array[4], array[5], array[6], array[7],
            array[8], array[9], array[10], array[11], array[12], array[13], array[14], array[15],
        )
    }

    proof fn lemma_tuple_of_injective(a: Self, b: Self) {
        assert(a =~= b);
    }

    fn array_from_tuple(tuple: Self::Tuple) -> (out: Self) {
        let (a0, a1, a2, a3, a4, a5, a6, a7, a8, a9, a10, a11, a12, a13, a14, a15) = tuple;
        [a0, a1, a2, a3, a4, a5, a6, a7, a8, a9, a10, a11, a12, a13, a14, a15]
    }

    fn array_into_tuple(self) -> (out: Self::Tuple) {
        let ghost source = self@;
        let mut items = into_items(self);
        let a0 = take_at(&mut items, Ghost(source), Ghost(0));
        let a1 = take_at(&mut items, Ghost(source), Ghost(1));
        let a2 = take_at(&mut items, Ghost(source), Ghost(2));
        let a3 = take_at(&mut items, Ghost(source), Ghost(3));
        let a4 = take_at(&mut items, Ghost(source), Ghost(4));
        let a5 = take_at(&mut items, Ghost(source), Ghost(5));
        let a6 = take_at(&mut items, Ghost(source), Ghost(6));
        let a7 = take_at(&mut items, Ghost(source), Ghost(7));
        let a8 = take_at(&mut items, Ghost(source), Ghost(8));
        let a9 = take_at(&mut items, Ghost(source), Ghost(9));
        let a10 = take_at(&mut items, Ghost(source), Ghost(10));
        let a11 = take_at(&mut items, Ghost(source), Ghost(11));
        let a12 = take_at(&mut items, Ghost(source), Ghost(12));
        let a13 = take_at(&mut items, Ghost(source), Ghost(13));
        let a14 = take_at(&mut items, Ghost(source), Ghost(14));
        let a15 = take_at(&mut items, Ghost(source), Ghost(15));
        (a0, a1, a2, a3, a4, a5, a6, a7, a8, a9, a10, a11, a12, a13, a14, a15)
    }
}

impl<T> ArrayTuple for [T; 17] {
    type Tuple = (T, T, T, T, T, T, T, T, T, T, T, T, T, T, T, T, T);

    open spec fn tuple_of(array: Self) -> Self::Tuple {
        (
            array[0], array[1], array[2], array[3], array[4], array[5], array[6], array[7],
            array[8], array[9], array[10], array[11], array[12], array[13], array[14], array[15],
            array[16],
        )
    }

    proof fn lemma_tuple_of_injective(a: Self, b: Self) {
        assert(a =~= b);
    }

    fn array_from_tuple(tuple: Self::Tuple) -> (out: Self) {
        let (a0, a1, a2, a3, a4, a5, a6, a7, a8, a9, a10, a11, a12, a13, a14, a15, a16) = tuple;
        [a0, a1, a2, a3, a4, a5, a6, a7, a8, a9, a10, a11, a12, a13, a14, a15, a16]
    }

    fn array_into_tuple(self) -> (out: Self::Tuple) {
        let ghost source = self@;
        let mut items = into_items(self);
        let a0 = take_at(&mut items, Ghost(source), Ghost(0));
        let a1 = take_at(&mut items, Ghost(source), Ghost(1));
        let a2 = take_at(&mut items, Ghost(source), Ghost(2));
        let a3 = take_at(&mut items, Ghost(source), Ghost(3));
        let a4 = take_at(&mut items, Ghost(source), Ghost(4));
        let a5 = take_at(&mut items, Ghost(source), Ghost(5));
        let a6 = take_at(&mut items, Ghost(source), Ghost(6));
        let a7 = take_at(&mut items, Ghost(source), Ghost(7));
        let a8 = take_at(&mut items, Ghost(source), Ghost(8));
        let a9 = take_at(&mut items, Ghost(source), Ghost(9));
        let a10 = take_at(&mut items, Ghost(source), Ghost(10));
        let a11 = take_at(&mut items, Ghost(source), Ghost(11));
        let a12 = take_at(&mut items, Ghost(source), Ghost(12));
        let a13 = take_at(&mut items, Ghost(source), Ghost(13));
        let a14 = take_at(&mut items, Ghost(source), Ghost(14));
        let a15 = take_at(&mut items, Ghost(source), Ghost(15));
        let a16 = take_at(&mut items, Ghost(source), Ghost(16));
        (a0, a1, a2, a3, a4, a5, a6, a7, a8, a9, a10, a11, a12, a13, a14, a15, a16)
    }
}

impl<T> ArrayTuple for [T; 18] {
    type Tuple = (T, T, T, T, T, T, T, T, T, T, T, T, T, T, T, T, T, T);

    open spec fn tuple_of(array: Self) -> Self::Tuple {
        (
            array[0], array[1], array[2], array[3], array[4], array[5], array[6], array[7],
            array[8], array[9], array[10], array[11], array[12], array[13], array[14], array[15],
            array[16], array[17],
        )
    }

    proof fn lemma_tuple_of_injective(a: Self, b: Self) {
        assert(a =~= b);
    }

    fn array_from_tuple(tuple: Self::Tuple) -> (out: Self) {
        let (
            a0, a1, a2, a3, a4, a5, a6, a7, a8, a9, a10, a11, a12, a13, a14, a15, a16, a17,
        ) = tuple;
        [a0, a1, a2, a3, a4, a5, a6, a7, a8, a9, a10, a11, a12, a13, a14, a15, a16, a17]
    }

    fn array_into_tuple(self) -> (out: Self::Tuple) {
        let ghost source = self@;
        let mut items = into_items(self);
        let a0 = take_at(&mut items, Ghost(source), Ghost(0));
        let a1 = take_at(&mut items, Ghost(source), Ghost(1));
        let a2 = take_at(&mut items, Ghost(source), Ghost(2));
        let a3 = take_at(&mut items, Ghost(source), Ghost(3));
        let a4 = take_at(&mut items, Ghost(source), Ghost(4));
        let a5 = take_at(&mut items, Ghost(source), Ghost(5));
        let a6 = take_at(&mut items, Ghost(source), Ghost(6));
        let a7 = take_at(&mut items, Ghost(source), Ghost(7));
        let a8 = take_at(&mut items, Ghost(source), Ghost(8));
        let a9 = take_at(&mut items, Ghost(source), Ghost(9));
        let a10 = take_at(&mut items, Ghost(source), Ghost(10));
        let a11 = take_at(&mut items, Ghost(source), Ghost(11));
        let a12 = take_at(&mut items, Ghost(source), Ghost(12));
        let a13 = take_at(&mut items, Ghost(source), Ghost(13));
        let a14 = take_at(&mut items, Ghost(source), Ghost(14));
        let a15 = take_at(&mut items, Ghost(source), Ghost(15));
        let a16 = take_at(&mut items, Ghost(source), Ghost(16));
        let a17 = take_at(&mut items, Ghost(source), Ghost(17));
        (a0, a1, a2, a3, a4, a5, a6, a7, a8, a9, a10, a11, a12, a13, a14, a15, a16, a17)
    }
}

impl<T> ArrayTuple for [T; 19] {
    type Tuple = (T, T, T, T, T, T, T, T, T, T, T, T, T, T, T, T, T, T, T);

    open spec fn tuple_of(array: Self) -> Self::Tuple {
        (
            array[0], array[1], array[2], array[3], array[4], array[5], array[6], array[7],
            array[8], array[9], array[10], array[11], array[12], array[13], array[14], array[15],
            array[16], array[17], array[18],
        )
    }

    proof fn lemma_tuple_of_injective(a: Self, b: Self) {
        assert(a =~= b);
    }

    fn array_from_tuple(tuple: Self::Tuple) -> (out: Self) {
        let (
            a0, a1, a2, a3, a4, a5, a6, a7, a8, a9, a10, a11, a12, a13, a14, a15, a16, a17, a18,
        ) = tuple;
        [a0, a1, a2, a3, a4, a5, a6, a7, a8, a9, a10, a11, a12, a13, a14, a15, a16, a17, a18]
    }

    fn array_into_tuple(self) -> (out: Self::Tuple) {
        let ghost source = self@;
        let mut items = into_items(self);
        let a0 = take_at(&mut items, Ghost(source), Ghost(0));
        let a1 = take_at(&mut items, Ghost(source), Ghost(1));
        let a2 = take_at(&mut items, Ghost(source), Ghost(2));
        let a3 = take_at(&mut items, Ghost(source), Ghost(3));
        let a4 = take_at(&mut items, Ghost(source), Ghost(4));
        let a5 = take_at(&mut items, Ghost(source), Ghost(5));
        let a6 = take_at(&mut items, Ghost(source), Ghost(6));
        let a7 = take_at(&mut items, Ghost(source), Ghost(7));
        let a8 = take_at(&mut items, Ghost(source), Ghost(8));
        let a9 = take_at(&mut items, Ghost(source), Ghost(9));
        let a10 = take_at(&mut items, Ghost(source), Ghost(10));
        let a11 = take_at(&mut items, Ghost(source), Ghost(11));
        let a12 = take_at(&mut items, Ghost(source), Ghost(12));
        let a13 = take_at(&mut items, Ghost(source), Ghost(13));
        let a14 = take_at(&mut items, Ghost(source), Ghost(14));
        let a15 = take_at(&mut items, Ghost(source), Ghost(15));
        let a16 = take_at(&mut items, Ghost(source), Ghost(16));
        let a17 = take_at(&mut items, Ghost(source), Ghost(17));
        let a18 = take_at(&mut items, Ghost(source), Ghost(18));
        (a0, a1, a2, a3, a4, a5, a6, a7, a8, a9, a10, a11, a12, a13, a14, a15, a16, a17, a18)
    }
}

impl<T> ArrayTuple for [T; 20] {
    type Tuple = (T, T, T, T, T, T, T, T, T, T, T, T, T, T, T, T, T, T, T, T);

    open spec fn tuple_of(array: Self) -> Self::Tuple {
        (
            array[0], array[1], array[2], array[3], array[4], array[5], array[6], array[7],
            array[8], array[9], array[10], array[11], array[12], array[13], array[14], array[15],
            array[16], array[17], array[18], array[19],
        )
    }

    proof fn lemma_tuple_of_injective(a: Self, b: Self) {
        assert(a =~= b);
    }

    fn array_from_tuple(tuple: Self::Tuple) -> (out: Self) {
        let (
            a0, a1, a2, a3, a4, a5, a6, a7, a8, a9, a10, a11, a12, a13, a14, a15, a16, a17, a18,
            a19,
        ) = tuple;
        [a0, a1, a2, a3, a4, a5, a6, a7, a8, a9, a10, a11, a12, a13, a14, a15, a16, a17, a18, a19]
    }

    fn array_into_tuple(self) -> (out: Self::Tuple) {
        let ghost source = self@;
        let mut items = into_items(self);
        let a0 = take_at(&mut items, Ghost(source), Ghost(0));
        let a1 = take_at(&mut items, Ghost(source), Ghost(1));
        let a2 = take_at(&mut items, Ghost(source), Ghost(2));
        let a3 = take_at(&mut items, Ghost(source), Ghost(3));
        let a4 = take_at(&mut items, Ghost(source), Ghost(4));
        let a5 = take_at(&mut items, Ghost(source), Ghost(5));
        let a6 = take_at(&mut items, Ghost(source), Ghost(6));
        let a7 = take_at(&mut items, Ghost(source), Ghost(7));
        let a8 = take_at(&mut items, Ghost(source), Ghost(8));
        let a9 = take_at(&mut items, Ghost(source), Ghost(9));
        let a10 = take_at(&mut items, Ghost(source), Ghost(10));
        let a11 = take_at(&mut items, Ghost(source), Ghost(11));
        let a12 = take_at(&mut items, Ghost(source), Ghost(12));
        let a13 = take_at(&mut items, Ghost(source), Ghost(13));
        let a14 = take_at(&mut items, Ghost(source), Ghost(14));
        let a15 = take_at(&mut items, Ghost(source), Ghost(15));
        let a16 = take_at(&mut items, Ghost(source), Ghost(16));
        let a17 = take_at(&mut items, Ghost(source), Ghost(17));
        let a18 = take_at(&mut items, Ghost(source), Ghost(18));
        let a19 = take_at(&mut items, Ghost(source), Ghost(19));
        (a0, a1, a2, a3, a4, a5, a6, a7, a8, a9, a10, a11, a12, a13, a14, a15, a16, a17, a18, a19)
    }
}

impl<T> ArrayTuple for [T; 21] {
    type Tuple = (T, T, T, T, T, T, T, T, T, T, T, T, T, T, T, T, T, T, T, T, T);

    open spec fn tuple_of(array: Self) -> Self::Tuple {
        (
            array[0], array[1], array[2], array[3], array[4], array[5], array[6], array[7],
            array[8], array[9], array[10], array[11], array[12], array[13], array[14], array[15],
            array[16], array[17], array[18], array[19], array[20],
        )
    }

    proof fn lemma_tuple_of_injective(a: Self, b: Self) {
        assert(a =~= b);
    }

    fn array_from_tuple(tuple: Self::Tuple) -> (out: Self) {
        let (
            a0, a1, a2, a3, a4, a5, a6, a7, a8, a9, a10, a11, a12, a13, a14, a15, a16, a17, a18,
            a19, a20,
        ) = tuple;
        [
            a0, a1, a2, a3, a4, a5, a6, a7, a8, a9, a10, a11, a12, a13, a14, a15, a16, a17, a18,
            a19, a20,
        ]
    }

    fn array_into_tuple(self) -> (out: Self::Tuple) {
        let ghost source = self@;
        let mut items = into_items(self);
        let a0 = take_at(&mut items, Ghost(source), Ghost(0));
        let a1 = take_at(&mut items, Ghost(source), Ghost(1));
        let a2 = take_at(&mut items, Ghost(source), Ghost(2));
        let a3 = take_at(&mut items, Ghost(source), Ghost(3));
        let a4 = take_at(&mut items, Ghost(source), Ghost(4));
        let a5 = take_at(&mut items, Ghost(source), Ghost(5));
        let a6 = take_at(&mut items, Ghost(source), Ghost(6));
        let a7 = take_at(&mut items, Ghost(source), Ghost(7));
        let a8 = take_at(&mut items, Ghost(source), Ghost(8));
        let a9 = take_at(&mut items, Ghost(source), Ghost(9));
        let a10 = take_at(&mut items, Ghost(source), Ghost(10));
        let a11 = take_at(&mut items, Ghost(source), Ghost(11));
        let a12 = take_at(&mut items, Ghost(source), Ghost(12));
        let a13 = take_at(&mut items, Ghost(source), Ghost(13));
        let a14 = take_at(&mut items, Ghost(source), Ghost(14));
        let a15 = take_at(&mut items, Ghost(source), Ghost(15));
        let a16 = take_at(&mut items, Ghost(source), Ghost(16));
        let a17 = take_at(&mut items, Ghost(source), Ghost(17));
        let a18 = take_at(&mut items, Ghost(source), Ghost(18));
        let a19 = take_at(&mut items, Ghost(source), Ghost(19));
        let a20 = take_at(&mut items, Ghost(source), Ghost(20));
        (
            a0, a1, a2, a3, a4, a5, a6, a7, a8, a9, a10, a11, a12, a13, a14, a15, a16, a17, a18,
            a19, a20,
        )
    }
}

impl<T> ArrayTuple for [T; 22] {
    type Tuple = (T, T, T, T, T, T, T, T, T, T, T, T, T, T, T, T, T, T, T, T, T, T);

    open spec fn tuple_of(array: Self) -> Self::Tuple {
        (
            array[0], array[1], array[2], array[3], array[4], array[5], array[6], array[7],
            array[8], array[9], array[10], array[11], array[12], array[13], array[14], array[15],
            array[16], array[17], array[18], array[19], array[20], array[21],
        )
    }

    proof fn lemma_tuple_of_injective(a: Self, b: Self) {
        assert(a =~= b);
    }

    fn array_from_tuple(tuple: Self::Tuple) -> (out: Self) {
        let (
            a0, a1, a2, a3, a4, a5, a6, a7, a8, a9, a10, a11, a12, a13, a14, a15, a16, a17, a18,
            a19, a20, a21,
        ) = tuple;
        [
            a0, a1, a2, a3, a4, a5, a6, a7, a8, a9, a10, a11, a12, a13, a14, a15, a16, a17, a18,
            a19, a20, a21,
        ]
    }

    fn array_into_tuple(self) -> (out: Self::Tuple) {
        let ghost source = self@;
        let mut items = into_items(self);
        let a0 = take_at(&mut items, Ghost(source), Ghost(0));
        let a1 = take_at(&mut items, Ghost(source), Ghost(1));
        let a2 = take_at(&mut items, Ghost(source), Ghost(2));
        let a3 = take_at(&mut items, Ghost(source), Ghost(3));
        let a4 = take_at(&mut items, Ghost(source), Ghost(4));
        let a5 = take_at(&mut items, Ghost(source), Ghost(5));
        let a6 = take_at(&mut items, Ghost(source), Ghost(6));
        let a7 = take_at(&mut items, Ghost(source), Ghost(7));
        let a8 = take_at(&mut items, Ghost(source), Ghost(8));
        let a9 = take_at(&mut items, Ghost(source), Ghost(9));
        let a10 = take_at(&mut items, Ghost(source), Ghost(10));
        let a11 = take_at(&mut items, Ghost(source), Ghost(11));
        let a12 = take_at(&mut items, Ghost(source), Ghost(12));
        let a13 = take_at(&mut items, Ghost(source), Ghost(13));
        let a14 = take_at(&mut items, Ghost(source), Ghost(14));
        let a15 = take_at(&mut items, Ghost(source), Ghost(15));
        let a16 = take_at(&mut items, Ghost(source), Ghost(16));
        let a17 = take_at(&mut items, Ghost(source), Ghost(17));
        let a18 = take_at(&mut items, Ghost(source), Ghost(18));
        let a19 = take_at(&mut items, Ghost(source), Ghost(19));
        let a20 = take_at(&mut items, Ghost(source), Ghost(20));
        let a21 = take_at(&mut items, Ghost(source), Ghost(21));
        (
            a0, a1, a2, a3, a4, a5, a6, a7, a8, a9, a10, a11, a12, a13, a14, a15, a16, a17, a18,
            a19, a20, a21,
        )
    }
}

impl<T> ArrayTuple for [T; 23] {
    type Tuple = (T, T, T, T, T, T, T, T, T, T, T, T, T, T, T, T, T, T, T, T, T, T, T);

    open spec fn tuple_of(array: Self) -> Self::Tuple {
        (
            array[0], array[1], array[2], array[3], array[4], array[5], array[6], array[7],
            array[8], array[9], array[10], array[11], array[12], array[13], array[14], array[15],
            array[16], array[17], array[18], array[19], array[20], array[21], array[22],
        )
    }

    proof fn lemma_tuple_of_injective(a: Self, b: Self) {
        assert(a =~= b);
    }

    fn array_from_tuple(tuple: Self::Tuple) -> (out: Self) {
        let (
            a0, a1, a2, a3, a4, a5, a6, a7, a8, a9, a10, a11, a12, a13, a14, a15, a16, a17, a18,
            a19, a20, a21, a22,
        ) = tuple;
        [
            a0, a1, a2, a3, a4, a5, a6, a7, a8, a9, a10, a11, a12, a13, a14, a15, a16, a17, a18,
            a19, a20, a21, a22,
        ]
    }

    fn array_into_tuple(self) -> (out: Self::Tuple) {
        let ghost source = self@;
        let mut items = into_items(self);
        let a0 = take_at(&mut items, Ghost(source), Ghost(0));
        let a1 = take_at(&mut items, Ghost(source), Ghost(1));
        let a2 = take_at(&mut items, Ghost(source), Ghost(2));
        let a3 = take_at(&mut items, Ghost(source), Ghost(3));
        let a4 = take_at(&mut items, Ghost(source), Ghost(4));
        let a5 = take_at(&mut items, Ghost(source), Ghost(5));
        let a6 = take_at(&mut items, Ghost(source), Ghost(6));
        let a7 = take_at(&mut items, Ghost(source), Ghost(7));
        let a8 = take_at(&mut items, Ghost(source), Ghost(8));
        let a9 = take_at(&mut items, Ghost(source), Ghost(9));
        let a10 = take_at(&mut items, Ghost(source), Ghost(10));
        let a11 = take_at(&mut items, Ghost(source), Ghost(11));
        let a12 = take_at(&mut items, Ghost(source), Ghost(12));
        let a13 = take_at(&mut items, Ghost(source), Ghost(13));
        let a14 = take_at(&mut items, Ghost(source), Ghost(14));
        let a15 = take_at(&mut items, Ghost(source), Ghost(15));
        let a16 = take_at(&mut items, Ghost(source), Ghost(16));
        let a17 = take_at(&mut items, Ghost(source), Ghost(17));
        let a18 = take_at(&mut items, Ghost(source), Ghost(18));
        let a19 = take_at(&mut items, Ghost(source), Ghost(19));
        let a20 = take_at(&mut items, Ghost(source), Ghost(20));
        let a21 = take_at(&mut items, Ghost(source), Ghost(21));
        let a22 = take_at(&mut items, Ghost(source), Ghost(22));
        (
            a0, a1, a2, a3, a4, a5, a6, a7, a8, a9, a10, a11, a12, a13, a14, a15, a16, a17, a18,
            a19, a20, a21, a22,
        )
    }
}

impl<T> ArrayTuple for [T; 24] {
    type Tuple = (T, T, T, T, T, T, T, T, T, T, T, T, T, T, T, T, T, T, T, T, T, T, T, T);

    open spec fn tuple_of(array: Self) -> Self::Tuple {
        (
            array[0], array[1], array[2], array[3], array[4], array[5], array[6], array[7],
            array[8], array[9], array[10], array[11], array[12], array[13], array[14], array[15],
            array[16], array[17], array[18], array[19], array[20], array[21], array[22], array[23],
        )
    }

    proof fn lemma_tuple_of_injective(a: Self, b: Self) {
        assert(a =~= b);
    }

    fn array_from_tuple(tuple: Self::Tuple) -> (out: Self) {
        let (
            a0, a1, a2, a3, a4, a5, a6, a7, a8, a9, a10, a11, a12, a13, a14, a15, a16, a17, a18,
            a19, a20, a21, a22, a23,
        ) = tuple;
        [
            a0, a1, a2, a3, a4, a5, a6, a7, a8, a9, a10, a11, a12, a13, a14, a15, a16, a17, a18,
            a19, a20, a21, a22, a23,
        ]
    }

    fn array_into_tuple(self) -> (out: Self::Tuple) {
        let ghost source = self@;
        let mut items = into_items(self);
        let a0 = take_at(&mut items, Ghost(source), Ghost(0));
        let a1 = take_at(&mut items, Ghost(source), Ghost(1));
        let a2 = take_at(&mut items, Ghost(source), Ghost(2));
        let a3 = take_at(&mut items, Ghost(source), Ghost(3));
        let a4 = take_at(&mut items, Ghost(source), Ghost(4));
        let a5 = take_at(&mut items, Ghost(source), Ghost(5));
        let a6 = take_at(&mut items, Ghost(source), Ghost(6));
        let a7 = take_at(&mut items, Ghost(source), Ghost(7));
        let a8 = take_at(&mut items, Ghost(source), Ghost(8));
        let a9 = take_at(&mut items, Ghost(source), Ghost(9));
        let a10 = take_at(&mut items, Ghost(source), Ghost(10));
        let a11 = take_at(&mut items, Ghost(source), Ghost(11));
        let a12 = take_at(&mut items, Ghost(source), Ghost(12));
        let a13 = take_at(&mut items, Ghost(source), Ghost(13));
        let a14 = take_at(&mut items, Ghost(source), Ghost(14));
        let a15 = take_at(&mut items, Ghost(source), Ghost(15));
        let a16 = take_at(&mut items, Ghost(source), Ghost(16));
        let a17 = take_at(&mut items, Ghost(source), Ghost(17));
        let a18 = take_at(&mut items, Ghost(source), Ghost(18));
        let a19 = take_at(&mut items, Ghost(source), Ghost(19));
        let a20 = take_at(&mut items, Ghost(source), Ghost(20));
        let a21 = take_at(&mut items, Ghost(source), Ghost(21));
        let a22 = take_at(&mut items, Ghost(source), Ghost(22));
        let a23 = take_at(&mut items, Ghost(source), Ghost(23));
        (
            a0, a1, a2, a3, a4, a5, a6, a7, a8, a9, a10, a11, a12, a13, a14, a15, a16, a17, a18,
            a19, a20, a21, a22, a23,
        )
    }
}

impl<T> ArrayTuple for [T; 25] {
    type Tuple = (T, T, T, T, T, T, T, T, T, T, T, T, T, T, T, T, T, T, T, T, T, T, T, T, T);

    open spec fn tuple_of(array: Self) -> Self::Tuple {
        (
            array[0], array[1], array[2], array[3], array[4], array[5], array[6], array[7],
            array[8], array[9], array[10], array[11], array[12], array[13], array[14], array[15],
            array[16], array[17], array[18], array[19], array[20], array[21], array[22], array[23],
            array[24],
        )
    }

    proof fn lemma_tuple_of_injective(a: Self, b: Self) {
        assert(a =~= b);
    }

    fn array_from_tuple(tuple: Self::Tuple) -> (out: Self) {
        let (
            a0, a1, a2, a3, a4, a5, a6, a7, a8, a9, a10, a11, a12, a13, a14, a15, a16, a17, a18,
            a19, a20, a21, a22, a23, a24,
        ) = tuple;
        [
            a0, a1, a2, a3, a4, a5, a6, a7, a8, a9, a10, a11, a12, a13, a14, a15, a16, a17, a18,
            a19, a20, a21, a22, a23, a24,
        ]
    }

    fn array_into_tuple(self) -> (out: Self::Tuple) {
        let ghost source = self@;
        let mut items = into_items(self);
        let a0 = take_at(&mut items, Ghost(source), Ghost(0));
        let a1 = take_at(&mut items, Ghost(source), Ghost(1));
        let a2 = take_at(&mut items, Ghost(source), Ghost(2));
        let a3 = take_at(&mut items, Ghost(source), Ghost(3));
        let a4 = take_at(&mut items, Ghost(source), Ghost(4));
        let a5 = take_at(&mut items, Ghost(source), Ghost(5));
        let a6 = take_at(&mut items, Ghost(source), Ghost(6));
        let a7 = take_at(&mut items, Ghost(source), Ghost(7));
        let a8 = take_at(&mut items, Ghost(source), Ghost(8));
        let a9 = take_at(&mut items, Ghost(source), Ghost(9));
        let a10 = take_at(&mut items, Ghost(source), Ghost(10));
        let a11 = take_at(&mut items, Ghost(source), Ghost(11));
        let a12 = take_at(&mut items, Ghost(source), Ghost(12));
        let a13 = take_at(&mut items, Ghost(source), Ghost(13));
        let a14 = take_at(&mut items, Ghost(source), Ghost(14));
        let a15 = take_at(&mut items, Ghost(source), Ghost(15));
        let a16 = take_at(&mut items, Ghost(source), Ghost(16));
        let a17 = take_at(&mut items, Ghost(source), Ghost(17));
        let a18 = take_at(&mut items, Ghost(source), Ghost(18));
        let a19 = take_at(&mut items, Ghost(source), Ghost(19));
        let a20 = take_at(&mut items, Ghost(source), Ghost(20));
        let a21 = take_at(&mut items, Ghost(source), Ghost(21));
        let a22 = take_at(&mut items, Ghost(source), Ghost(22));
        let a23 = take_at(&mut items, Ghost(source), Ghost(23));
        let a24 = take_at(&mut items, Ghost(source), Ghost(24));
        (
            a0, a1, a2, a3, a4, a5, a6, a7, a8, a9, a10, a11, a12, a13, a14, a15, a16, a17, a18,
            a19, a20, a21, a22, a23, a24,
        )
    }
}

impl<T> ArrayTuple for [T; 26] {
    type Tuple = (T, T, T, T, T, T, T, T, T, T, T, T, T, T, T, T, T, T, T, T, T, T, T, T, T, T);

    open spec fn tuple_of(array: Self) -> Self::Tuple {
        (
            array[0], array[1], array[2], array[3], array[4], array[5], array[6], array[7],
            array[8], array[9], array[10], array[11], array[12], array[13], array[14], array[15],
            array[16], array[17], array[18], array[19], array[20], array[21], array[22], array[23],
            array[24], array[25],
        )
    }

    proof fn lemma_tuple_of_injective(a: Self, b: Self) {
        assert(a =~= b);
    }

    fn array_from_tuple(tuple: Self::Tuple) -> (out: Self) {
        let (
            a0, a1, a2, a3, a4, a5, a6, a7, a8, a9, a10, a11, a12, a13, a14, a15, a16, a17, a18,
            a19, a20, a21, a22, a23, a24, a25,
        ) = tuple;
        [
            a0, a1, a2, a3, a4, a5, a6, a7, a8, a9, a10, a11, a12, a13, a14, a15, a16, a17, a18,
            a19, a20, a21, a22, a23, a24, a25,
        ]
    }

    fn array_into_tuple(self) -> (out: Self::Tuple) {
        let ghost source = self@;
        let mut items = into_items(self);
        let a0 = take_at(&mut items, Ghost(source), Ghost(0));
        let a1 = take_at(&mut items, Ghost(source), Ghost(1));
        let a2 = take_at(&mut items, Ghost(source), Ghost(2));
        let a3 = take_at(&mut items, Ghost(source), Ghost(3));
        let a4 = take_at(&mut items, Ghost(source), Ghost(4));
        let a5 = take_at(&mut items, Ghost(source), Ghost(5));
        let a6 = take_at(&mut items, Ghost(source), Ghost(6));
        let a7 = take_at(&mut items, Ghost(source), Ghost(7));
        let a8 = take_at(&mut items, Ghost(source), Ghost(8));
        let a9 = take_at(&mut items, Ghost(source), Ghost(9));
        let a10 = take_at(&mut items, Ghost(source), Ghost(10));
        let a11 = take_at(&mut items, Ghost(source), Ghost(11));
        let a12 = take_at(&mut items, Ghost(source), Ghost(12));
        let a13 = take_at(&mut items, Ghost(source), Ghost(13));
        let a14 = take_at(&mut items, Ghost(source), Ghost(14));
        let a15 = take_at(&mut items, Ghost(source), Ghost(15));
        let a16 = take_at(&mut items, Ghost(source), Ghost(16));
        let a17 = take_at(&mut items, Ghost(source), Ghost(17));
        let a18 = take_at(&mut items, Ghost(source), Ghost(18));
        let a19 = take_at(&mut items, Ghost(source), Ghost(19));
        let a20 = take_at(&mut items, Ghost(source), Ghost(20));
        let a21 = take_at(&mut items, Ghost(source), Ghost(21));
        let a22 = take_at(&mut items, Ghost(source), Ghost(22));
        let a23 = take_at(&mut items, Ghost(source), Ghost(23));
        let a24 = take_at(&mut items, Ghost(source), Ghost(24));
        let a25 = take_at(&mut items, Ghost(source), Ghost(25));
        (
            a0, a1, a2, a3, a4, a5, a6, a7, a8, a9, a10, a11, a12, a13, a14, a15, a16, a17, a18,
            a19, a20, a21, a22, a23, a24, a25,
        )
    }
}

impl<T> ArrayTuple for [T; 27] {
    type Tuple = (T, T, T, T, T, T, T, T, T, T, T, T, T, T, T, T, T, T, T, T, T, T, T, T, T, T, T);

    open spec fn tuple_of(array: Self) -> Self::Tuple {
        (
            array[0], array[1], array[2], array[3], array[4], array[5], array[6], array[7],
            array[8], array[9], array[10], array[11], array[12], array[13], array[14], array[15],
            array[16], array[17], array[18], array[19], array[20], array[21], array[22], array[23],
            array[24], array[25], array[26],
        )
    }

    proof fn lemma_tuple_of_injective(a: Self, b: Self) {
        assert(a =~= b);
    }

    fn array_from_tuple(tuple: Self::Tuple) -> (out: Self) {
        let (
            a0, a1, a2, a3, a4, a5, a6, a7, a8, a9, a10, a11, a12, a13, a14, a15, a16, a17, a18,
            a19, a20, a21, a22, a23, a24, a25, a26,
        ) = tuple;
        [
            a0, a1, a2, a3, a4, a5, a6, a7, a8, a9, a10, a11, a12, a13, a14, a15, a16, a17, a18,
            a19, a20, a21, a22, a23, a24, a25, a26,
        ]
    }

    fn array_into_tuple(self) -> (out: Self::Tuple) {
        let ghost source = self@;
        let mut items = into_items(self);
        let a0 = take_at(&mut items, Ghost(source), Ghost(0));
        let a1 = take_at(&mut items, Ghost(source), Ghost(1));
        let a2 = take_at(&mut items, Ghost(source), Ghost(2));
        let a3 = take_at(&mut items, Ghost(source), Ghost(3));
        let a4 = take_at(&mut items, Ghost(source), Ghost(4));
        let a5 = take_at(&mut items, Ghost(source), Ghost(5));
        let a6 = take_at(&mut items, Ghost(source), Ghost(6));
        let a7 = take_at(&mut items, Ghost(source), Ghost(7));
        let a8 = take_at(&mut items, Ghost(source), Ghost(8));
        let a9 = take_at(&mut items, Ghost(source), Ghost(9));
        let a10 = take_at(&mut items, Ghost(source), Ghost(10));
        let a11 = take_at(&mut items, Ghost(source), Ghost(11));
        let a12 = take_at(&mut items, Ghost(source), Ghost(12));
        let a13 = take_at(&mut items, Ghost(source), Ghost(13));
        let a14 = take_at(&mut items, Ghost(source), Ghost(14));
        let a15 = take_at(&mut items, Ghost(source), Ghost(15));
        let a16 = take_at(&mut items, Ghost(source), Ghost(16));
        let a17 = take_at(&mut items, Ghost(source), Ghost(17));
        let a18 = take_at(&mut items, Ghost(source), Ghost(18));
        let a19 = take_at(&mut items, Ghost(source), Ghost(19));
        let a20 = take_at(&mut items, Ghost(source), Ghost(20));
        let a21 = take_at(&mut items, Ghost(source), Ghost(21));
        let a22 = take_at(&mut items, Ghost(source), Ghost(22));
        let a23 = take_at(&mut items, Ghost(source), Ghost(23));
        let a24 = take_at(&mut items, Ghost(source), Ghost(24));
        let a25 = take_at(&mut items, Ghost(source), Ghost(25));
        let a26 = take_at(&mut items, Ghost(source), Ghost(26));
        (
            a0, a1, a2, a3, a4, a5, a6, a7, a8, a9, a10, a11, a12, a13, a14, a15, a16, a17, a18,
            a19, a20, a21, a22, a23, a24, a25, a26,
        )
    }
}

impl<T> ArrayTuple for [T; 28] {
    type Tuple = (
        T, T, T, T, T, T, T, T, T, T, T, T, T, T, T, T, T, T, T, T, T, T, T, T, T, T, T, T,
    );

    open spec fn tuple_of(array: Self) -> Self::Tuple {
        (
            array[0], array[1], array[2], array[3], array[4], array[5], array[6], array[7],
            array[8], array[9], array[10], array[11], array[12], array[13], array[14], array[15],
            array[16], array[17], array[18], array[19], array[20], array[21], array[22], array[23],
            array[24], array[25], array[26], array[27],
        )
    }

    proof fn lemma_tuple_of_injective(a: Self, b: Self) {
        assert(a =~= b);
    }

    fn array_from_tuple(tuple: Self::Tuple) -> (out: Self) {
        let (
            a0, a1, a2, a3, a4, a5, a6, a7, a8, a9, a10, a11, a12, a13, a14, a15, a16, a17, a18,
            a19, a20, a21, a22, a23, a24, a25, a26, a27,
        ) = tuple;
        [
            a0, a1, a2, a3, a4, a5, a6, a7, a8, a9, a10, a11, a12, a13, a14, a15, a16, a17, a18,
            a19, a20, a21, a22, a23, a24, a25, a26, a27,
        ]
    }

    fn array_into_tuple(self) -> (out: Self::Tuple) {
        let ghost source = self@;
        let mut items = into_items(self);
        let a0 = take_at(&mut items, Ghost(source), Ghost(0));
        let a1 = take_at(&mut items, Ghost(source), Ghost(1));
        let a2 = take_at(&mut items, Ghost(source), Ghost(2));
        let a3 = take_at(&mut items, Ghost(source), Ghost(3));
        let a4 = take_at(&mut items, Ghost(source), Ghost(4));
        let a5 = take_at(&mut items, Ghost(source), Ghost(5));
        let a6 = take_at(&mut items, Ghost(source), Ghost(6));
        let a7 = take_at(&mut items, Ghost(source), Ghost(7));
        let a8 = take_at(&mut items, Ghost(source), Ghost(8));
        let a9 = take_at(&mut items, Ghost(source), Ghost(9));
        let a10 = take_at(&mut items, Ghost(source), Ghost(10));
        let a11 = take_at(&mut items, Ghost(source), Ghost(11));
        let a12 = take_at(&mut items, Ghost(source), Ghost(12));
        let a13 = take_at(&mut items, Ghost(source), Ghost(13));
        let a14 = take_at(&mut items, Ghost(source), Ghost(14));
        let a15 = take_at(&mut items, Ghost(source), Ghost(15));
        let a16 = take_at(&mut items, Ghost(source), Ghost(16));
        let a17 = take_at(&mut items, Ghost(source), Ghost(17));
        let a18 = take_at(&mut items, Ghost(source), Ghost(18));
        let a19 = take_at(&mut items, Ghost(source), Ghost(19));
        let a20 = take_at(&mut items, Ghost(source), Ghost(20));
        let a21 = take_at(&mut items, Ghost(source), Ghost(21));
        let a22 = take_at(&mut items, Ghost(source), Ghost(22));
        let a23 = take_at(&mut items, Ghost(source), Ghost(23));
        let a24 = take_at(&mut items, Ghost(source), Ghost(24));
        let a25 = take_at(&mut items, Ghost(source), Ghost(25));
        let a26 = take_at(&mut items, Ghost(source), Ghost(26));
        let a27 = take_at(&mut items, Ghost(source), Ghost(27));
        (
            a0, a1, a2, a3, a4, a5, a6, a7, a8, a9, a10, a11, a12, a13, a14, a15, a16, a17, a18,
            a19, a20, a21, a22, a23, a24, a25, a26, a27,
        )
    }
}

impl<T> ArrayTuple for [T; 29] {
    type Tuple = (
        T, T, T, T, T, T, T, T, T, T, T, T, T, T, T, T, T, T, T, T, T, T, T, T, T, T, T, T, T,
    );

    open spec fn tuple_of(array: Self) -> Self::Tuple {
        (
            array[0], array[1], array[2], array[3], array[4], array[5], array[6], array[7],
            array[8], array[9], array[10], array[11], array[12], array[13], array[14], array[15],
            array[16], array[17], array[18], array[19], array[20], array[21], array[22], array[23],
            array[24], array[25], array[26], array[27], array[28],
        )
    }

    proof fn lemma_tuple_of_injective(a: Self, b: Self) {
        assert(a =~= b);
    }

    fn array_from_tuple(tuple: Self::Tuple) -> (out: Self) {
        let (
            a0, a1, a2, a3, a4, a5, a6, a7, a8, a9, a10, a11, a12, a13, a14, a15, a16, a17, a18,
            a19, a20, a21, a22, a23, a24, a25, a26, a27, a28,
        ) = tuple;
        [
            a0, a1, a2, a3, a4, a5, a6, a7, a8, a9, a10, a11, a12, a13, a14, a15, a16, a17, a18,
            a19, a20, a21, a22, a23, a24, a25, a26, a27, a28,
        ]
    }

    fn array_into_tuple(self) -> (out: Self::Tuple) {
        let ghost source = self@;
        let mut items = into_items(self);
        let a0 = take_at(&mut items, Ghost(source), Ghost(0));
        let a1 = take_at(&mut items, Ghost(source), Ghost(1));
        let a2 = take_at(&mut items, Ghost(source), Ghost(2));
        let a3 = take_at(&mut items, Ghost(source), Ghost(3));
        let a4 = take_at(&mut items, Ghost(source), Ghost(4));
        let a5 = take_at(&mut items, Ghost(source), Ghost(5));
        let a6 = take_at(&mut items, Ghost(source), Ghost(6));
        let a7 = take_at(&mut items, Ghost(source), Ghost(7));
        let a8 = take_at(&mut items, Ghost(source), Ghost(8));
        let a9 = take_at(&mut items, Ghost(source), Ghost(9));
        let a10 = take_at(&mut items, Ghost(source), Ghost(10));
        let a11 = take_at(&mut items, Ghost(source), Ghost(11));
        let a12 = take_at(&mut items, Ghost(source), Ghost(12));
        let a13 = take_at(&mut items, Ghost(source), Ghost(13));
        let a14 = take_at(&mut items, Ghost(source), Ghost(14));
        let a15 = take_at(&mut items, Ghost(source), Ghost(15));
        let a16 = take_at(&mut items, Ghost(source), Ghost(16));
        let a17 = take_at(&mut items, Ghost(source), Ghost(17));
        let a18 = take_at(&mut items, Ghost(source), Ghost(18));
        let a19 = take_at(&mut items, Ghost(source), Ghost(19));
        let a20 = take_at(&mut items, Ghost(source), Ghost(20));
        let a21 = take_at(&mut items, Ghost(source), Ghost(21));
        let a22 = take_at(&mut items, Ghost(source), Ghost(22));
        let a23 = take_at(&mut items, Ghost(source), Ghost(23));
        let a24 = take_at(&mut items, Ghost(source), Ghost(24));
        let a25 = take_at(&mut items, Ghost(source), Ghost(25));
        let a26 = take_at(&mut items, Ghost(source), Ghost(26));
        let a27 = take_at(&mut items, Ghost(source), Ghost(27));
        let a28 = take_at(&mut items, Ghost(source), Ghost(28));
        (
            a0, a1, a2, a3, a4, a5, a6, a7, a8, a9, a10, a11, a12, a13, a14, a15, a16, a17, a18,
            a19, a20, a21, a22, a23, a24, a25, a26, a27, a28,
        )
    }
}

impl<T> ArrayTuple for [T; 30] {
    type Tuple = (
        T, T, T, T, T, T, T, T, T, T, T, T, T, T, T, T, T, T, T, T, T, T, T, T, T, T, T, T, T, T,
    );

    open spec fn tuple_of(array: Self) -> Self::Tuple {
        (
            array[0], array[1], array[2], array[3], array[4], array[5], array[6], array[7],
            array[8], array[9], array[10], array[11], array[12], array[13], array[14], array[15],
            array[16], array[17], array[18], array[19], array[20], array[21], array[22], array[23],
            array[24], array[25], array[26], array[27], array[28], array[29],
        )
    }

    proof fn lemma_tuple_of_injective(a: Self, b: Self) {
        assert(a =~= b);
    }

    fn array_from_tuple(tuple: Self::Tuple) -> (out: Self) {
        let (
            a0, a1, a2, a3, a4, a5, a6, a7, a8, a9, a10, a11, a12, a13, a14, a15, a16, a17, a18,
            a19, a20, a21, a22, a23, a24, a25, a26, a27, a28, a29,
        ) = tuple;
        [
            a0, a1, a2, a3, a4, a5, a6, a7, a8, a9, a10, a11, a12, a13, a14, a15, a16, a17, a18,
            a19, a20, a21, a22, a23, a24, a25, a26, a27, a28, a29,
        ]
    }

    fn array_into_tuple(self) -> (out: Self::Tuple) {
        let ghost source = self@;
        let mut items = into_items(self);
        let a0 = take_at(&mut items, Ghost(source), Ghost(0));
        let a1 = take_at(&mut items, Ghost(source), Ghost(1));
        let a2 = take_at(&mut items, Ghost(source), Ghost(2));
        let a3 = take_at(&mut items, Ghost(source), Ghost(3));
        let a4 = take_at(&mut items, Ghost(source), Ghost(4));
        let a5 = take_at(&mut items, Ghost(source), Ghost(5));
        let a6 = take_at(&mut items, Ghost(source), Ghost(6));
        let a7 = take_at(&mut items, Ghost(source), Ghost(7));
        let a8 = take_at(&mut items, Ghost(source), Ghost(8));
        let a9 = take_at(&mut items, Ghost(source), Ghost(9));
        let a10 = take_at(&mut items, Ghost(source), Ghost(10));
        let a11 = take_at(&mut items, Ghost(source), Ghost(11));
        let a12 = take_at(&mut items, Ghost(source), Ghost(12));
        let a13 = take_at(&mut items, Ghost(source), Ghost(13));
        let a14 = take_at(&mut items, Ghost(source), Ghost(14));
        let a15 = take_at(&mut items, Ghost(source), Ghost(15));
        let a16 = take_at(&mut items, Ghost(source), Ghost(16));
        let a17 = take_at(&mut items, Ghost(source), Ghost(17));
        let a18 = take_at(&mut items, Ghost(source), Ghost(18));
        let a19 = take_at(&mut items, Ghost(source), Ghost(19));
        let a20 = take_at(&mut items, Ghost(source), Ghost(20));
        let a21 = take_at(&mut items, Ghost(source), Ghost(21));
        let a22 = take_at(&mut items, Ghost(source), Ghost(22));
        let a23 = take_at(&mut items, Ghost(source), Ghost(23));
        let a24 = take_at(&mut items, Ghost(source), Ghost(24));
        let a25 = take_at(&mut items, Ghost(source), Ghost(25));
        let a26 = take_at(&mut items, Ghost(source), Ghost(26));
        let a27 = take_at(&mut items, Ghost(source), Ghost(27));
        let a28 = take_at(&mut items, Ghost(source), Ghost(28));
        let a29 = take_at(&mut items, Ghost(source), Ghost(29));
        (
            a0, a1, a2, a3, a4, a5, a6, a7, a8, a9, a10, a11, a12, a13, a14, a15, a16, a17, a18,
            a19, a20, a21, a22, a23, a24, a25, a26, a27, a28, a29,
        )
    }
}

impl<T> ArrayTuple for [T; 31] {
    type Tuple = (
        T, T, T, T, T, T, T, T, T, T, T, T, T, T, T, T, T, T, T, T, T, T, T, T, T, T, T, T, T, T,
        T,
    );

    open spec fn tuple_of(array: Self) -> Self::Tuple {
        (
            array[0], array[1], array[2], array[3], array[4], array[5], array[6], array[7],
            array[8], array[9], array[10], array[11], array[12], array[13], array[14], array[15],
            array[16], array[17], array[18], array[19], array[20], array[21], array[22], array[23],
            array[24], array[25], array[26], array[27], array[28], array[29], array[30],
        )
    }

    proof fn lemma_tuple_of_injective(a: Self, b: Self) {
        assert(a =~= b);
    }

    fn array_from_tuple(tuple: Self::Tuple) -> (out: Self) {
        let (
            a0, a1, a2, a3, a4, a5, a6, a7, a8, a9, a10, a11, a12, a13, a14, a15, a16, a17, a18,
            a19, a20, a21, a22, a23, a24, a25, a26, a27, a28, a29, a30,
        ) = tuple;
        [
            a0, a1, a2, a3, a4, a5, a6, a7, a8, a9, a10, a11, a12, a13, a14, a15, a16, a17, a18,
            a19, a20, a21, a22, a23, a24, a25, a26, a27, a28, a29, a30,
        ]
    }

    fn array_into_tuple(self) -> (out: Self::Tuple) {
        let ghost source = self@;
        let mut items = into_items(self);
        let a0 = take_at(&mut items, Ghost(source), Ghost(0));
        let a1 = take_at(&mut items, Ghost(source), Ghost(1));
        let a2 = take_at(&mut items, Ghost(source), Ghost(2));
        let a3 = take_at(&mut items, Ghost(source), Ghost(3));
        let a4 = take_at(&mut items, Ghost(source), Ghost(4));
        let a5 = take_at(&mut items, Ghost(source), Ghost(5));
        let a6 = take_at(&mut items, Ghost(source), Ghost(6));
        let a7 = take_at(&mut items, Ghost(source), Ghost(7));
        let a8 = take_at(&mut items, Ghost(source), Ghost(8));
        let a9 = take_at(&mut items, Ghost(source), Ghost(9));
        let a10 = take_at(&mut items, Ghost(source), Ghost(10));
        let a11 = take_at(&mut items, Ghost(source), Ghost(11));
        let a12 = take_at(&mut items, Ghost(source), Ghost(12));
        let a13 = take_at(&mut items, Ghost(source), Ghost(13));
        let a14 = take_at(&mut items, Ghost(source), Ghost(14));
        let a15 = take_at(&mut items, Ghost(source), Ghost(15));
        let a16 = take_at(&mut items, Ghost(source), Ghost(16));
        let a17 = take_at(&mut items, Ghost(source), Ghost(17));
        let a18 = take_at(&mut items, Ghost(source), Ghost(18));
        let a19 = take_at(&mut items, Ghost(source), Ghost(19));
        let a20 = take_at(&mut items, Ghost(source), Ghost(20));
        let a21 = take_at(&mut items, Ghost(source), Ghost(21));
        let a22 = take_at(&mut items, Ghost(source), Ghost(22));
        let a23 = take_at(&mut items, Ghost(source), Ghost(23));
        let a24 = take_at(&mut items, Ghost(source), Ghost(24));
        let a25 = take_at(&mut items, Ghost(source), Ghost(25));
        let a26 = take_at(&mut items, Ghost(source), Ghost(26));
        let a27 = take_at(&mut items, Ghost(source), Ghost(27));
        let a28 = take_at(&mut items, Ghost(source), Ghost(28));
        let a29 = take_at(&mut items, Ghost(source), Ghost(29));
        let a30 = take_at(&mut items, Ghost(source), Ghost(30));
        (
            a0, a1, a2, a3, a4, a5, a6, a7, a8, a9, a10, a11, a12, a13, a14, a15, a16, a17, a18,
            a19, a20, a21, a22, a23, a24, a25, a26, a27, a28, a29, a30,
        )
    }
}

impl<T> ArrayTuple for [T; 32] {
    type Tuple = (
        T, T, T, T, T, T, T, T, T, T, T, T, T, T, T, T, T, T, T, T, T, T, T, T, T, T, T, T, T, T,
        T, T,
    );

    open spec fn tuple_of(array: Self) -> Self::Tuple {
        (
            array[0], array[1], array[2], array[3], array[4], array[5], array[6], array[7],
            array[8], array[9], array[10], array[11], array[12], array[13], array[14], array[15],
            array[16], array[17], array[18], array[19], array[20], array[21], array[22], array[23],
            array[24], array[25], array[26], array[27], array[28], array[29], array[30], array[31],
        )
    }

    proof fn lemma_tuple_of_injective(a: Self, b: Self) {
        assert(a =~= b);
    }

    fn array_from_tuple(tuple: Self::Tuple) -> (out: Self) {
        let (
            a0, a1, a2, a3, a4, a5, a6, a7, a8, a9, a10, a11, a12, a13, a14, a15, a16, a17, a18,
            a19, a20, a21, a22, a23, a24, a25, a26, a27, a28, a29, a30, a31,
        ) = tuple;
        [
            a0, a1, a2, a3, a4, a5, a6, a7, a8, a9, a10, a11, a12, a13, a14, a15, a16, a17, a18,
            a19, a20, a21, a22, a23, a24, a25, a26, a27, a28, a29, a30, a31,
        ]
    }

    fn array_into_tuple(self) -> (out: Self::Tuple) {
        let ghost source = self@;
        let mut items = into_items(self);
        let a0 = take_at(&mut items, Ghost(source), Ghost(0));
        let a1 = take_at(&mut items, Ghost(source), Ghost(1));
        let a2 = take_at(&mut items, Ghost(source), Ghost(2));
        let a3 = take_at(&mut items, Ghost(source), Ghost(3));
        let a4 = take_at(&mut items, Ghost(source), Ghost(4));
        let a5 = take_at(&mut items, Ghost(source), Ghost(5));
        let a6 = take_at(&mut items, Ghost(source), Ghost(6));
        let a7 = take_at(&mut items, Ghost(source), Ghost(7));
        let a8 = take_at(&mut items, Ghost(source), Ghost(8));
        let a9 = take_at(&mut items, Ghost(source), Ghost(9));
        let a10 = take_at(&mut items, Ghost(source), Ghost(10));
        let a11 = take_at(&mut items, Ghost(source), Ghost(11));
        let a12 = take_at(&mut items, Ghost(source), Ghost(12));
        let a13 = take_at(&mut items, Ghost(source), Ghost(13));
        let a14 = take_at(&mut items, Ghost(source), Ghost(14));
        let a15 = take_at(&mut items, Ghost(source), Ghost(15));
        let a16 = take_at(&mut items, Ghost(source), Ghost(16));
        let a17 = take_at(&mut items, Ghost(source), Ghost(17));
        let a18 = take_at(&mut items, Ghost(source), Ghost(18));
        let a19 = take_at(&mut items, Ghost(source), Ghost(19));
        let a20 = take_at(&mut items, Ghost(source), Ghost(20));
        let a21 = take_at(&mut items, Ghost(source), Ghost(21));
        let a22 = take_at(&mut items, Ghost(source), Ghost(22));
        let a23 = take_at(&mut items, Ghost(source), Ghost(23));
        let a24 = take_at(&mut items, Ghost(source), Ghost(24));
        let a25 = take_at(&mut items, Ghost(source), Ghost(25));
        let a26 = take_at(&mut items, Ghost(source), Ghost(26));
        let a27 = take_at(&mut items, Ghost(source), Ghost(27));
        let a28 = take_at(&mut items, Ghost(source), Ghost(28));
        let a29 = take_at(&mut items, Ghost(source), Ghost(29));
        let a30 = take_at(&mut items, Ghost(source), Ghost(30));
        let a31 = take_at(&mut items, Ghost(source), Ghost(31));
        (
            a0, a1, a2, a3, a4, a5, a6, a7, a8, a9, a10, a11, a12, a13, a14, a15, a16, a17, a18,
            a19, a20, a21, a22, a23, a24, a25, a26, a27, a28, a29, a30, a31,
        )
    }
}

} // verus!
