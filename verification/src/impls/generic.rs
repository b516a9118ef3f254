//! The operations that are written once for every length.

use crate::elements::{array_from_vec, fill_array, into_items, take_next};
use crate::model::{
    can_generate, can_map, can_zip_with, is_generated, is_indices, is_map, is_ref_array,
    is_repeat, is_zip, is_zip_with,
};
use crate::traits::{
    ArrayAsMut, ArrayAsRef, ArrayFromIter, ArrayGenerate, ArrayIndices, ArrayMap, ArrayRepeat,
    ArrayZip, ArrayZipWith,
};
use vstd::prelude::*;
use vstd::std_specs::iter::IteratorSpec;

verus! {

impl<T, U, const N: usize> ArrayZip<[U; N]> for [T; N] {
    type Output = [(T, U); N];

    open spec fn zip_ensures(array: Self, other: [U; N], out: [(T, U); N]) -> bool {
        is_zip(array, other, out)
    }

    fn array_zip(array: Self, other: [U; N]) -> (out: [(T, U); N]) {
        let mut items = into_items(array);
        let mut other_items = into_items(other);
        let mut pairs: Vec<(T, U)> = Vec::with_capacity(N);
        let mut i: usize = 0;
        while i < N
            invariant
                i <= N,
                items.obeys_prophetic_iter_laws(),
                items.remaining() == array@.skip(i as int),
                other_items.obeys_prophetic_iter_laws(),
                other_items.remaining() == other@.skip(i as int),
                pairs.len() == i,
                forall|j: int| 0 <= j < i ==> #[trigger] pairs[j] == (array[j], other[j]),
            decreases N - i,
        {
            let item = take_next(&mut items);
            let other_item = take_next(&mut other_items);
            pairs.push((item, other_item));
            i += 1;
        }
        array_from_vec(pairs)
    }
}

impl<T, U, V, F, const N: usize> ArrayZipWith<[U; N], F> for [T; N] where F: FnMut(T, U) -> V {
    type Output = [V; N];

    open spec fn zip_with_requires(array: Self, other: [U; N], f: F) -> bool {
        can_zip_with(array, other, f)
    }

    open spec fn zip_with_ensures(array: Self, other: [U; N], f: F, out: [V; N]) -> bool {
        is_zip_with(array, other, f, out)
    }

    fn array_zip_with(array: Self, other: [U; N], f: F) -> (out: [V; N]) {
        let mut call = f;
        let mut items = into_items(array);
        let mut other_items = into_items(other);
        let mut results: Vec<V> = Vec::with_capacity(N);
        let mut i: usize = 0;
        while i < N
            invariant
                i <= N,
                call == f,
                Self::zip_with_requires(array, other, f),
                items.obeys_prophetic_iter_laws(),
                items.remaining() == array@.skip(i as int),
                other_items.obeys_prophetic_iter_laws(),
                other_items.remaining() == other@.skip(i as int),
                results.len() == i,
                forall|j: int|
                    0 <= j < i ==> call_ensures(f, (array[j], other[j]), #[trigger] results[j]),
            decreases N - i,
        {
            let item = take_next(&mut items);
            let other_item = take_next(&mut other_items);
            assert(item == array[i as int] && other_item == other[i as int]);
            results.push(call(item, other_item));
            i += 1;
        }
        array_from_vec(results)
    }
}

impl<T, U, F, const N: usize> ArrayMap<F> for [T; N] where F: FnMut(T) -> U {
    type Output = [U; N];

    type OutputElement = U;

    open spec fn map_requires(array: Self, f: F) -> bool {
        can_map(array, f)
    }

    open spec fn map_ensures(array: Self, f: F, out: [U; N]) -> bool {
        is_map(array, f, out)
    }

    fn array_map(array: Self, f: F) -> (out: [U; N]) {
        let mut call = f;
        let mut items = into_items(array);
        let mut results: Vec<U> = Vec::with_capacity(N);
        let mut i: usize = 0;
        while i < N
            invariant
                i <= N,
                call == f,
                Self::map_requires(array, f),
                items.obeys_prophetic_iter_laws(),
                items.remaining() == array@.skip(i as int),
                results.len() == i,
                forall|j: int| 0 <= j < i ==> call_ensures(f, (array[j],), #[trigger] results[j]),
            decreases N - i,
        {
            let item = take_next(&mut items);
            assert(item == array[i as int]);
            results.push(call(item));
            i += 1;
        }
        array_from_vec(results)
    }
}

impl<'a, T: 'a, const N: usize> ArrayAsMut<'a> for [T; N] {
    type Output = [&'a mut T; N];

    type Element = T;

    open spec fn length() -> nat {
        N as nat
    }

    open spec fn element(array: Self, i: int) -> T {
        array[i]
    }

    open spec fn reference(out: [&'a mut T; N], i: int) -> &'a mut T {
        out[i]
    }

    fn as_mut(array: &'a mut Self) -> (out: [&'a mut T; N]) {
        let ghost before: Seq<T> = array@;
        let ghost after: Seq<T> = final(array)@;
        let mut rest: &'a mut [T] = array;
        let mut refs: Vec<&'a mut T> = Vec::with_capacity(N);
        let mut i: usize = 0;
        while i < N
            invariant
                i <= N,
                before.len() == N,
                after.len() == N,
                rest@ == before.skip(i as int),
                final(rest)@.len() == N - i,
                refs.len() == i,
                forall|j: int| 0 <= j < i ==> *(#[trigger] refs[j]) == before[j],
                forall|j: int| 0 <= j < i ==> #[trigger] after[j] == *final(refs[j]),
                forall|j: int| i <= j < N ==> #[trigger] after[j] == final(rest)@[j - i],
            decreases N - i,
        {
            let (head, tail) = rest.split_at_mut(1);
            let first = head.first_mut().unwrap();
            refs.push(first);
            rest = tail;
            i += 1;
        }
        array_from_vec(refs)
    }
}

impl<'a, T: 'a, const N: usize> ArrayAsRef<'a> for [T; N] {
    type Output = [&'a T; N];

    open spec fn as_ref_ensures(array: &'a Self, out: [&'a T; N]) -> bool {
        is_ref_array(array, out)
    }

    fn as_ref(array: &'a Self) -> (out: [&'a T; N]) {
        let borrow = |i: usize| -> (item: &'a T)
            requires
                i < N,
            ensures
                *item == array[i as int],
            {
                &array[i]
            };
        array_init::array_init(borrow)
    }
}

impl<const N: usize> ArrayIndices for [usize; N] {
    open spec fn indices_ensures(out: Self) -> bool {
        is_indices(out)
    }

    fn array_indices() -> (out: Self) {
        let position = |i: usize| -> (index: usize)
            ensures
                index == i,
            {
                i
            };
        array_init::array_init(position)
    }
}

impl<T, I, const N: usize> ArrayFromIter<I> for [T; N] where I: Iterator<Item = T> {
    open spec fn length() -> nat {
        N as nat
    }

    open spec fn items(array: Self) -> Seq<T> {
        array@
    }

    fn array_from_iter(it: I) -> (out: Option<Self>) {
        let mut items = it;
        fill_array(&mut items)
    }
}

impl<T, const N: usize> ArrayRepeat<T> for [T; N] where T: Clone {
    open spec fn repeat_ensures(x: T, out: Self) -> bool {
        is_repeat(x, out)
    }

    fn array_repeat(x: T) -> (out: Self) {
        let mut copies: Vec<T> = Vec::with_capacity(N);
        if N > 0 {
            let mut i: usize = 1;
            while i < N
                invariant
                    1 <= i <= N,
                    copies.len() == i - 1,
                    forall|j: int| 0 <= j < i - 1 ==> cloned(x, #[trigger] copies[j]),
                decreases N - i,
            {
                copies.push(x.clone());
                i += 1;
            }
            copies.push(x);
        }
        array_from_vec(copies)
    }
}

impl<T, F, const N: usize> ArrayGenerate<F> for [T; N] where F: FnMut() -> T {
    open spec fn generate_requires(f: F) -> bool {
        can_generate(f, N as nat)
    }

    open spec fn generate_ensures(f: F, out: Self) -> bool {
        is_generated(f, out)
    }

    fn array_generate(f: F) -> (out: Self) {
        let mut call = f;
        let mut results: Vec<T> = Vec::with_capacity(N);
        let mut i: usize = 0;
        while i < N
            invariant
                i <= N,
                call == f,
                Self::generate_requires(f),
                results.len() == i,
                forall|j: int| 0 <= j < i ==> call_ensures(f, (), #[trigger] results[j]),
            decreases N - i,
        {
            results.push(call());
            i += 1;
        }
        array_from_vec(results)
    }
}

} // verus!
