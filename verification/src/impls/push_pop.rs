//! Push and pop for each length.
//!
//! An array of length `N` can take one more element for `N` from 0 to 31, and
//! one of length `N + 1` can give one up. The type of the result names its
//! length, so each length has an implementation of its own; all of them hand
//! the work to the functions of [`resize`](super::resize).

use crate::impls::resize::{append, prepend, split_first, split_last};
use crate::model::{is_pop_back, is_pop_front, is_push_back, is_push_front};
use crate::traits::{ArrayPop, ArrayPush};
use vstd::prelude::*;

verus! {

impl<T> ArrayPush<T> for [T; 0] {
    type Output = [T; 1];

    open spec fn push_back_ensures(array: Self, item: T, out: [T; 1]) -> bool {
        is_push_back(array, item, out)
    }

    open spec fn push_front_ensures(array: Self, item: T, out: [T; 1]) -> bool {
        is_push_front(array, item, out)
    }

    fn array_push_back(array: Self, item: T) -> (out: [T; 1]) {
        append(array, item)
    }

    fn array_push_front(array: Self, item: T) -> (out: [T; 1]) {
        prepend(array, item)
    }
}

impl<T> ArrayPop<T> for [T; 1] {
    type Output = [T; 0];

    open spec fn pop_back_ensures(array: Self, out: ([T; 0], T)) -> bool {
        is_pop_back(array, out)
    }

    open spec fn pop_front_ensures(array: Self, out: ([T; 0], T)) -> bool {
        is_pop_front(array, out)
    }

    fn array_pop_back(array: Self) -> (out: ([T; 0], T)) {
        split_last(array)
    }

    fn array_pop_front(array: Self) -> (out: ([T; 0], T)) {
        split_first(array)
    }
}

impl<T> ArrayPush<T> for [T; 1] {
    type Output = [T; 2];

    open spec fn push_back_ensures(array: Self, item: T, out: [T; 2]) -> bool {
        is_push_back(array, item, out)
    }

    open spec fn push_front_ensures(array: Self, item: T, out: [T; 2]) -> bool {
        is_push_front(array, item, out)
    }

    fn array_push_back(array: Self, item: T) -> (out: [T; 2]) {
        append(array, item)
    }

    fn array_push_front(array: Self, item: T) -> (out: [T; 2]) {
        prepend(array, item)
    }
}

impl<T> ArrayPop<T> for [T; 2] {
    type Output = [T; 1];

    open spec fn pop_back_ensures(array: Self, out: ([T; 1], T)) -> bool {
        is_pop_back(array, out)
    }

    open spec fn pop_front_ensures(array: Self, out: ([T; 1], T)) -> bool {
        is_pop_front(array, out)
    }

    fn array_pop_back(array: Self) -> (out: ([T; 1], T)) {
        split_last(array)
    }

    fn array_pop_front(array: Self) -> (out: ([T; 1], T)) {
        split_first(array)
    }
}

impl<T> ArrayPush<T> for [T; 2] {
    type Output = [T; 3];

    open spec fn push_back_ensures(array: Self, item: T, out: [T; 3]) -> bool {
        is_push_back(array, item, out)
    }

    open spec fn push_front_ensures(array: Self, item: T, out: [T; 3]) -> bool {
        is_push_front(array, item, out)
    }

    fn array_push_back(array: Self, item: T) -> (out: [T; 3]) {
        append(array, item)
    }

    fn array_push_front(array: Self, item: T) -> (out: [T; 3]) {
        prepend(array, item)
    }
}

impl<T> ArrayPop<T> for [T; 3] {
    type Output = [T; 2];

    open spec fn pop_back_ensures(array: Self, out: ([T; 2], T)) -> bool {
        is_pop_back(array, out)
    }

    open spec fn pop_front_ensures(array: Self, out: ([T; 2], T)) -> bool {
        is_pop_front(array, out)
    }

    fn array_pop_back(array: Self) -> (out: ([T; 2], T)) {
        split_last(array)
    }

    fn array_pop_front(array: Self) -> (out: ([T; 2], T)) {
        split_first(array)
    }
}

impl<T> ArrayPush<T> for [T; 3] {
    type Output = [T; 4];

    open spec fn push_back_ensures(array: Self, item: T, out: [T; 4]) -> bool {
        is_push_back(array, item, out)
    }

    open spec fn push_front_ensures(array: Self, item: T, out: [T; 4]) -> bool {
        is_push_front(array, item, out)
    }

    fn array_push_back(array: Self, item: T) -> (out: [T; 4]) {
        append(array, item)
    }

    fn array_push_front(array: Self, item: T) -> (out: [T; 4]) {
        prepend(array, item)
    }
}

impl<T> ArrayPop<T> for [T; 4] {
    type Output = [T; 3];

    open spec fn pop_back_ensures(array: Self, out: ([T; 3], T)) -> bool {
        is_pop_back(array, out)
    }

    open spec fn pop_front_ensures(array: Self, out: ([T; 3], T)) -> bool {
        is_pop_front(array, out)
    }

    fn array_pop_back(array: Self) -> (out: ([T; 3], T)) {
        split_last(array)
    }

    fn array_pop_front(array: Self) -> (out: ([T; 3], T)) {
        split_first(array)
    }
}

impl<T> ArrayPush<T> for [T; 4] {
    type Output = [T; 5];

    open spec fn push_back_ensures(array: Self, item: T, out: [T; 5]) -> bool {
        is_push_back(array, item, out)
    }

    open spec fn push_front_ensures(array: Self, item: T, out: [T; 5]) -> bool {
        is_push_front(array, item, out)
    }

    fn array_push_back(array: Self, item: T) -> (out: [T; 5]) {
        append(array, item)
    }

    fn array_push_front(array: Self, item: T) -> (out: [T; 5]) {
        prepend(array, item)
    }
}

impl<T> ArrayPop<T> for [T; 5] {
    type Output = [T; 4];

    open spec fn pop_back_ensures(array: Self, out: ([T; 4], T)) -> bool {
        is_pop_back(array, out)
    }

    open spec fn pop_front_ensures(array: Self, out: ([T; 4], T)) -> bool {
        is_pop_front(array, out)
    }

    fn array_pop_back(array: Self) -> (out: ([T; 4], T)) {
        split_last(array)
    }

    fn array_pop_front(array: Self) -> (out: ([T; 4], T)) {
        split_first(array)
    }
}

impl<T> ArrayPush<T> for [T; 5] {
    type Output = [T; 6];

    open spec fn push_back_ensures(array: Self, item: T, out: [T; 6]) -> bool {
        is_push_back(array, item, out)
    }

    open spec fn push_front_ensures(array: Self, item: T, out: [T; 6]) -> bool {
        is_push_front(array, item, out)
    }

    fn array_push_back(array: Self, item: T) -> (out: [T; 6]) {
        append(array, item)
    }

    fn array_push_front(array: Self, item: T) -> (out: [T; 6]) {
        prepend(array, item)
    }
}

impl<T> ArrayPop<T> for [T; 6] {
    type Output = [T; 5];

    open spec fn pop_back_ensures(array: Self, out: ([T; 5], T)) -> bool {
        is_pop_back(array, out)
    }

    open spec fn pop_front_ensures(array: Self, out: ([T; 5], T)) -> bool {
        is_pop_front(array, out)
    }

    fn array_pop_back(array: Self) -> (out: ([T; 5], T)) {
        split_last(array)
    }

    fn array_pop_front(array: Self) -> (out: ([T; 5], T)) {
        split_first(array)
    }
}

impl<T> ArrayPush<T> for [T; 6] {
    type Output = [T; 7];

    open spec fn push_back_ensures(array: Self, item: T, out: [T; 7]) -> bool {
        is_push_back(array, item, out)
    }

    open spec fn push_front_ensures(array: Self, item: T, out: [T; 7]) -> bool {
        is_push_front(array, item, out)
    }

    fn array_push_back(array: Self, item: T) -> (out: [T; 7]) {
        append(array, item)
    }

    fn array_push_front(array: Self, item: T) -> (out: [T; 7]) {
        prepend(array, item)
    }
}

impl<T> ArrayPop<T> for [T; 7] {
    type Output = [T; 6];

    open spec fn pop_back_ensures(array: Self, out: ([T; 6], T)) -> bool {
        is_pop_back(array, out)
    }

    open spec fn pop_front_ensures(array: Self, out: ([T; 6], T)) -> bool {
        is_pop_front(array, out)
    }

    fn array_pop_back(array: Self) -> (out: ([T; 6], T)) {
        split_last(array)
    }

    fn array_pop_front(array: Self) -> (out: ([T; 6], T)) {
        split_first(array)
    }
}

impl<T> ArrayPush<T> for [T; 7] {
    type Output = [T; 8];

    open spec fn push_back_ensures(array: Self, item: T, out: [T; 8]) -> bool {
        is_push_back(array, item, out)
    }

    open spec fn push_front_ensures(array: Self, item: T, out: [T; 8]) -> bool {
        is_push_front(array, item, out)
    }

    fn array_push_back(array: Self, item: T) -> (out: [T; 8]) {
        append(array, item)
    }

    fn array_push_front(array: Self, item: T) -> (out: [T; 8]) {
        prepend(array, item)
    }
}

impl<T> ArrayPop<T> for [T; 8] {
    type Output = [T; 7];

    open spec fn pop_back_ensures(array: Self, out: ([T; 7], T)) -> bool {
        is_pop_back(array, out)
    }

    open spec fn pop_front_ensures(array: Self, out: ([T; 7], T)) -> bool {
        is_pop_front(array, out)
    }

    fn array_pop_back(array: Self) -> (out: ([T; 7], T)) {
        split_last(array)
    }

    fn array_pop_front(array: Self) -> (out: ([T; 7], T)) {
        split_first(array)
    }
}

impl<T> ArrayPush<T> for [T; 8] {
    type Output = [T; 9];

    open spec fn push_back_ensures(array: Self, item: T, out: [T; 9]) -> bool {
        is_push_back(array, item, out)
    }

    open spec fn push_front_ensures(array: Self, item: T, out: [T; 9]) -> bool {
        is_push_front(array, item, out)
    }

    fn array_push_back(array: Self, item: T) -> (out: [T; 9]) {
        append(array, item)
    }

    fn array_push_front(array: Self, item: T) -> (out: [T; 9]) {
        prepend(array, item)
    }
}

impl<T> ArrayPop<T> for [T; 9] {
    type Output = [T; 8];

    open spec fn pop_back_ensures(array: Self, out: ([T; 8], T)) -> bool {
        is_pop_back(array, out)
    }

    open spec fn pop_front_ensures(array: Self, out: ([T; 8], T)) -> bool {
        is_pop_front(array, out)
    }

    fn array_pop_back(array: Self) -> (out: ([T; 8], T)) {
        split_last(array)
    }

    fn array_pop_front(array: Self) -> (out: ([T; 8], T)) {
        split_first(array)
    }
}

impl<T> ArrayPush<T> for [T; 9] {
    type Output = [T; 10];

    open spec fn push_back_ensures(array: Self, item: T, out: [T; 10]) -> bool {
        is_push_back(array, item, out)
    }

    open spec fn push_front_ensures(array: Self, item: T, out: [T; 10]) -> bool {
        is_push_front(array, item, out)
    }

    fn array_push_back(array: Self, item: T) -> (out: [T; 10]) {
        append(array, item)
    }

    fn array_push_front(array: Self, item: T) -> (out: [T; 10]) {
        prepend(array, item)
    }
}

impl<T> ArrayPop<T> for [T; 10] {
    type Output = [T; 9];

    open spec fn pop_back_ensures(array: Self, out: ([T; 9], T)) -> bool {
        is_pop_back(array, out)
    }

    open spec fn pop_front_ensures(array: Self, out: ([T; 9], T)) -> bool {
        is_pop_front(array, out)
    }

    fn array_pop_back(array: Self) -> (out: ([T; 9], T)) {
        split_last(array)
    }

    fn array_pop_front(array: Self) -> (out: ([T; 9], T)) {
        split_first(array)
    }
}

impl<T> ArrayPush<T> for [T; 10] {
    type Output = [T; 11];

    open spec fn push_back_ensures(array: Self, item: T, out: [T; 11]) -> bool {
        is_push_back(array, item, out)
    }

    open spec fn push_front_ensures(array: Self, item: T, out: [T; 11]) -> bool {
        is_push_front(array, item, out)
    }

    fn array_push_back(array: Self, item: T) -> (out: [T; 11]) {
        append(array, item)
    }

    fn array_push_front(array: Self, item: T) -> (out: [T; 11]) {
        prepend(array, item)
    }
}

impl<T> ArrayPop<T> for [T; 11] {
    type Output = [T; 10];

    open spec fn pop_back_ensures(array: Self, out: ([T; 10], T)) -> bool {
        is_pop_back(array, out)
    }

    open spec fn pop_front_ensures(array: Self, out: ([T; 10], T)) -> bool {
        is_pop_front(array, out)
    }

    fn array_pop_back(array: Self) -> (out: ([T; 10], T)) {
        split_last(array)
    }

    fn array_pop_front(array: Self) -> (out: ([T; 10], T)) {
        split_first(array)
    }
}

impl<T> ArrayPush<T> for [T; 11] {
    type Output = [T; 12];

    open spec fn push_back_ensures(array: Self, item: T, out: [T; 12]) -> bool {
        is_push_back(array, item, out)
    }

    open spec fn push_front_ensures(array: Self, item: T, out: [T; 12]) -> bool {
        is_push_front(array, item, out)
    }

    fn array_push_back(array: Self, item: T) -> (out: [T; 12]) {
        append(array, item)
    }

    fn array_push_front(array: Self, item: T) -> (out: [T; 12]) {
        prepend(array, item)
    }
}

impl<T> ArrayPop<T> for [T; 12] {
    type Output = [T; 11];

    open spec fn pop_back_ensures(array: Self, out: ([T; 11], T)) -> bool {
        is_pop_back(array, out)
    }

    open spec fn pop_front_ensures(array: Self, out: ([T; 11], T)) -> bool {
        is_pop_front(array, out)
    }

    fn array_pop_back(array: Self) -> (out: ([T; 11], T)) {
        split_last(array)
    }

    fn array_pop_front(array: Self) -> (out: ([T; 11], T)) {
        split_first(array)
    }
}

impl<T> ArrayPush<T> for [T; 12] {
    type Output = [T; 13];

    open spec fn push_back_ensures(array: Self, item: T, out: [T; 13]) -> bool {
        is_push_back(array, item, out)
    }

    open spec fn push_front_ensures(array: Self, item: T, out: [T; 13]) -> bool {
        is_push_front(array, item, out)
    }

    fn array_push_back(array: Self, item: T) -> (out: [T; 13]) {
        append(array, item)
    }

    fn array_push_front(array: Self, item: T) -> (out: [T; 13]) {
        prepend(array, item)
    }
}

impl<T> ArrayPop<T> for [T; 13] {
    type Output = [T; 12];

    open spec fn pop_back_ensures(array: Self, out: ([T; 12], T)) -> bool {
        is_pop_back(array, out)
    }

    open spec fn pop_front_ensures(array: Self, out: ([T; 12], T)) -> bool {
        is_pop_front(array, out)
    }

    fn array_pop_back(array: Self) -> (out: ([T; 12], T)) {
        split_last(array)
    }

    fn array_pop_front(array: Self) -> (out: ([T; 12], T)) {
        split_first(array)
    }
}

impl<T> ArrayPush<T> for [T; 13] {
    type Output = [T; 14];

    open spec fn push_back_ensures(array: Self, item: T, out: [T; 14]) -> bool {
        is_push_back(array, item, out)
    }

    open spec fn push_front_ensures(array: Self, item: T, out: [T; 14]) -> bool {
        is_push_front(array, item, out)
    }

    fn array_push_back(array: Self, item: T) -> (out: [T; 14]) {
        append(array, item)
    }

    fn array_push_front(array: Self, item: T) -> (out: [T; 14]) {
        prepend(array, item)
    }
}

impl<T> ArrayPop<T> for [T; 14] {
    type Output = [T; 13];

    open spec fn pop_back_ensures(array: Self, out: ([T; 13], T)) -> bool {
        is_pop_back(array, out)
    }

    open spec fn pop_front_ensures(array: Self, out: ([T; 13], T)) -> bool {
        is_pop_front(array, out)
    }

    fn array_pop_back(array: Self) -> (out: ([T; 13], T)) {
        split_last(array)
    }

    fn array_pop_front(array: Self) -> (out: ([T; 13], T)) {
        split_first(array)
    }
}

impl<T> ArrayPush<T> for [T; 14] {
    type Output = [T; 15];

    open spec fn push_back_ensures(array: Self, item: T, out: [T; 15]) -> bool {
        is_push_back(array, item, out)
    }

    open spec fn push_front_ensures(array: Self, item: T, out: [T; 15]) -> bool {
        is_push_front(array, item, out)
    }

    fn array_push_back(array: Self, item: T) -> (out: [T; 15]) {
        append(array, item)
    }

    fn array_push_front(array: Self, item: T) -> (out: [T; 15]) {
        prepend(array, item)
    }
}

impl<T> ArrayPop<T> for [T; 15] {
    type Output = [T; 14];

    open spec fn pop_back_ensures(array: Self, out: ([T; 14], T)) -> bool {
        is_pop_back(array, out)
    }

    open spec fn pop_front_ensures(array: Self, out: ([T; 14], T)) -> bool {
        is_pop_front(array, out)
    }

    fn array_pop_back(array: Self) -> (out: ([T; 14], T)) {
        split_last(array)
    }

    fn array_pop_front(array: Self) -> (out: ([T; 14], T)) {
        split_first(array)
    }
}

impl<T> ArrayPush<T> for [T; 15] {
    type Output = [T; 16];

    open spec fn push_back_ensures(array: Self, item: T, out: [T; 16]) -> bool {
        is_push_back(array, item, out)
    }

    open spec fn push_front_ensures(array: Self, item: T, out: [T; 16]) -> bool {
        is_push_front(array, item, out)
    }

    fn array_push_back(array: Self, item: T) -> (out: [T; 16]) {
        append(array, item)
    }

    fn array_push_front(array: Self, item: T) -> (out: [T; 16]) {
        prepend(array, item)
    }
}

impl<T> ArrayPop<T> for [T; 16] {
    type Output = [T; 15];

    open spec fn pop_back_ensures(array: Self, out: ([T; 15], T)) -> bool {
        is_pop_back(array, out)
    }

    open spec fn pop_front_ensures(array: Self, out: ([T; 15], T)) -> bool {
        is_pop_front(array, out)
    }

    fn array_pop_back(array: Self) -> (out: ([T; 15], T)) {
        split_last(array)
    }

    fn array_pop_front(array: Self) -> (out: ([T; 15], T)) {
        split_first(array)
    }
}

impl<T> ArrayPush<T> for [T; 16] {
    type Output = [T; 17];

    open spec fn push_back_ensures(array: Self, item: T, out: [T; 17]) -> bool {
        is_push_back(array, item, out)
    }

    open spec fn push_front_ensures(array: Self, item: T, out: [T; 17]) -> bool {
        is_push_front(array, item, out)
    }

    fn array_push_back(array: Self, item: T) -> (out: [T; 17]) {
        append(array, item)
    }

    fn array_push_front(array: Self, item: T) -> (out: [T; 17]) {
        prepend(array, item)
    }
}

impl<T> ArrayPop<T> for [T; 17] {
    type Output = [T; 16];

    open spec fn pop_back_ensures(array: Self, out: ([T; 16], T)) -> bool {
        is_pop_back(array, out)
    }

    open spec fn pop_front_ensures(array: Self, out: ([T; 16], T)) -> bool {
        is_pop_front(array, out)
    }

    fn array_pop_back(array: Self) -> (out: ([T; 16], T)) {
        split_last(array)
    }

    fn array_pop_front(array: Self) -> (out: ([T; 16], T)) {
        split_first(array)
    }
}

impl<T> ArrayPush<T> for [T; 17] {
    type Output = [T; 18];

    open spec fn push_back_ensures(array: Self, item: T, out: [T; 18]) -> bool {
        is_push_back(array, item, out)
    }

    open spec fn push_front_ensures(array: Self, item: T, out: [T; 18]) -> bool {
        is_push_front(array, item, out)
    }

    fn array_push_back(array: Self, item: T) -> (out: [T; 18]) {
        append(array, item)
    }

    fn array_push_front(array: Self, item: T) -> (out: [T; 18]) {
        prepend(array, item)
    }
}

impl<T> ArrayPop<T> for [T; 18] {
    type Output = [T; 17];

    open spec fn pop_back_ensures(array: Self, out: ([T; 17], T)) -> bool {
        is_pop_back(array, out)
    }

    open spec fn pop_front_ensures(array: Self, out: ([T; 17], T)) -> bool {
        is_pop_front(array, out)
    }

    fn array_pop_back(array: Self) -> (out: ([T; 17], T)) {
        split_last(array)
    }

    fn array_pop_front(array: Self) -> (out: ([T; 17], T)) {
        split_first(array)
    }
}

impl<T> ArrayPush<T> for [T; 18] {
    type Output = [T; 19];

    open spec fn push_back_ensures(array: Self, item: T, out: [T; 19]) -> bool {
        is_push_back(array, item, out)
    }

    open spec fn push_front_ensures(array: Self, item: T, out: [T; 19]) -> bool {
        is_push_front(array, item, out)
    }

    fn array_push_back(array: Self, item: T) -> (out: [T; 19]) {
        append(array, item)
    }

    fn array_push_front(array: Self, item: T) -> (out: [T; 19]) {
        prepend(array, item)
    }
}

impl<T> ArrayPop<T> for [T; 19] {
    type Output = [T; 18];

    open spec fn pop_back_ensures(array: Self, out: ([T; 18], T)) -> bool {
        is_pop_back(array, out)
    }

    open spec fn pop_front_ensures(array: Self, out: ([T; 18], T)) -> bool {
        is_pop_front(array, out)
    }

    fn array_pop_back(array: Self) -> (out: ([T; 18], T)) {
        split_last(array)
    }

    fn array_pop_front(array: Self) -> (out: ([T; 18], T)) {
        split_first(array)
    }
}

impl<T> ArrayPush<T> for [T; 19] {
    type Output = [T; 20];

    open spec fn push_back_ensures(array: Self, item: T, out: [T; 20]) -> bool {
        is_push_back(array, item, out)
    }

    open spec fn push_front_ensures(array: Self, item: T, out: [T; 20]) -> bool {
        is_push_front(array, item, out)
    }

    fn array_push_back(array: Self, item: T) -> (out: [T; 20]) {
        append(array, item)
    }

    fn array_push_front(array: Self, item: T) -> (out: [T; 20]) {
        prepend(array, item)
    }
}

impl<T> ArrayPop<T> for [T; 20] {
    type Output = [T; 19];

    open spec fn pop_back_ensures(array: Self, out: ([T; 19], T)) -> bool {
        is_pop_back(array, out)
    }

    open spec fn pop_front_ensures(array: Self, out: ([T; 19], T)) -> bool {
        is_pop_front(array, out)
    }

    fn array_pop_back(array: Self) -> (out: ([T; 19], T)) {
        split_last(array)
    }

    fn array_pop_front(array: Self) -> (out: ([T; 19], T)) {
        split_first(array)
    }
}

impl<T> ArrayPush<T> for [T; 20] {
    type Output = [T; 21];

    open spec fn push_back_ensures(array: Self, item: T, out: [T; 21]) -> bool {
        is_push_back(array, item, out)
    }

    open spec fn push_front_ensures(array: Self, item: T, out: [T; 21]) -> bool {
        is_push_front(array, item, out)
    }

    fn array_push_back(array: Self, item: T) -> (out: [T; 21]) {
        append(array, item)
    }

    fn array_push_front(array: Self, item: T) -> (out: [T; 21]) {
        prepend(array, item)
    }
}

impl<T> ArrayPop<T> for [T; 21] {
    type Output = [T; 20];

    open spec fn pop_back_ensures(array: Self, out: ([T; 20], T)) -> bool {
        is_pop_back(array, out)
    }

    open spec fn pop_front_ensures(array: Self, out: ([T; 20], T)) -> bool {
        is_pop_front(array, out)
    }

    fn array_pop_back(array: Self) -> (out: ([T; 20], T)) {
        split_last(array)
    }

    fn array_pop_front(array: Self) -> (out: ([T; 20], T)) {
        split_first(array)
    }
}

impl<T> ArrayPush<T> for [T; 21] {
    type Output = [T; 22];

    open spec fn push_back_ensures(array: Self, item: T, out: [T; 22]) -> bool {
        is_push_back(array, item, out)
    }

    open spec fn push_front_ensures(array: Self, item: T, out: [T; 22]) -> bool {
        is_push_front(array, item, out)
    }

    fn array_push_back(array: Self, item: T) -> (out: [T; 22]) {
        append(array, item)
    }

    fn array_push_front(array: Self, item: T) -> (out: [T; 22]) {
        prepend(array, item)
    }
}

impl<T> ArrayPop<T> for [T; 22] {
    type Output = [T; 21];

    open spec fn pop_back_ensures(array: Self, out: ([T; 21], T)) -> bool {
        is_pop_back(array, out)
    }

    open spec fn pop_front_ensures(array: Self, out: ([T; 21], T)) -> bool {
        is_pop_front(array, out)
    }

    fn array_pop_back(array: Self) -> (out: ([T; 21], T)) {
        split_last(array)
    }

    fn array_pop_front(array: Self) -> (out: ([T; 21], T)) {
        split_first(array)
    }
}

impl<T> ArrayPush<T> for [T; 22] {
    type Output = [T; 23];

    open spec fn push_back_ensures(array: Self, item: T, out: [T; 23]) -> bool {
        is_push_back(array, item, out)
    }

    open spec fn push_front_ensures(array: Self, item: T, out: [T; 23]) -> bool {
        is_push_front(array, item, out)
    }

    fn array_push_back(array: Self, item: T) -> (out: [T; 23]) {
        append(array, item)
    }

    fn array_push_front(array: Self, item: T) -> (out: [T; 23]) {
        prepend(array, item)
    }
}

impl<T> ArrayPop<T> for [T; 23] {
    type Output = [T; 22];

    open spec fn pop_back_ensures(array: Self, out: ([T; 22], T)) -> bool {
        is_pop_back(array, out)
    }

    open spec fn pop_front_ensures(array: Self, out: ([T; 22], T)) -> bool {
        is_pop_front(array, out)
    }

    fn array_pop_back(array: Self) -> (out: ([T; 22], T)) {
        split_last(array)
    }

    fn array_pop_front(array: Self) -> (out: ([T; 22], T)) {
        split_first(array)
    }
}

impl<T> ArrayPush<T> for [T; 23] {
    type Output = [T; 24];

    open spec fn push_back_ensures(array: Self, item: T, out: [T; 24]) -> bool {
        is_push_back(array, item, out)
    }

    open spec fn push_front_ensures(array: Self, item: T, out: [T; 24]) -> bool {
        is_push_front(array, item, out)
    }

    fn array_push_back(array: Self, item: T) -> (out: [T; 24]) {
        append(array, item)
    }

    fn array_push_front(array: Self, item: T) -> (out: [T; 24]) {
        prepend(array, item)
    }
}

impl<T> ArrayPop<T> for [T; 24] {
    type Output = [T; 23];

    open spec fn pop_back_ensures(array: Self, out: ([T; 23], T)) -> bool {
        is_pop_back(array, out)
    }

    open spec fn pop_front_ensures(array: Self, out: ([T; 23], T)) -> bool {
        is_pop_front(array, out)
    }

    fn array_pop_back(array: Self) -> (out: ([T; 23], T)) {
        split_last(array)
    }

    fn array_pop_front(array: Self) -> (out: ([T; 23], T)) {
        split_first(array)
    }
}

impl<T> ArrayPush<T> for [T; 24] {
    type Output = [T; 25];

    open spec fn push_back_ensures(array: Self, item: T, out: [T; 25]) -> bool {
        is_push_back(array, item, out)
    }

    open spec fn push_front_ensures(array: Self, item: T, out: [T; 25]) -> bool {
        is_push_front(array, item, out)
    }

    fn array_push_back(array: Self, item: T) -> (out: [T; 25]) {
        append(array, item)
    }

    fn array_push_front(array: Self, item: T) -> (out: [T; 25]) {
        prepend(array, item)
    }
}

impl<T> ArrayPop<T> for [T; 25] {
    type Output = [T; 24];

    open spec fn pop_back_ensures(array: Self, out: ([T; 24], T)) -> bool {
        is_pop_back(array, out)
    }

    open spec fn pop_front_ensures(array: Self, out: ([T; 24], T)) -> bool {
        is_pop_front(array, out)
    }

    fn array_pop_back(array: Self) -> (out: ([T; 24], T)) {
        split_last(array)
    }

    fn array_pop_front(array: Self) -> (out: ([T; 24], T)) {
        split_first(array)
    }
}

impl<T> ArrayPush<T> for [T; 25] {
    type Output = [T; 26];

    open spec fn push_back_ensures(array: Self, item: T, out: [T; 26]) -> bool {
        is_push_back(array, item, out)
    }

    open spec fn push_front_ensures(array: Self, item: T, out: [T; 26]) -> bool {
        is_push_front(array, item, out)
    }

    fn array_push_back(array: Self, item: T) -> (out: [T; 26]) {
        append(array, item)
    }

    fn array_push_front(array: Self, item: T) -> (out: [T; 26]) {
        prepend(array, item)
    }
}

impl<T> ArrayPop<T> for [T; 26] {
    type Output = [T; 25];

    open spec fn pop_back_ensures(array: Self, out: ([T; 25], T)) -> bool {
        is_pop_back(array, out)
    }

    open spec fn pop_front_ensures(array: Self, out: ([T; 25], T)) -> bool {
        is_pop_front(array, out)
    }

    fn array_pop_back(array: Self) -> (out: ([T; 25], T)) {
        split_last(array)
    }

    fn array_pop_front(array: Self) -> (out: ([T; 25], T)) {
        split_first(array)
    }
}

impl<T> ArrayPush<T> for [T; 26] {
    type Output = [T; 27];

    open spec fn push_back_ensures(array: Self, item: T, out: [T; 27]) -> bool {
        is_push_back(array, item, out)
    }

    open spec fn push_front_ensures(array: Self, item: T, out: [T; 27]) -> bool {
        is_push_front(array, item, out)
    }

    fn array_push_back(array: Self, item: T) -> (out: [T; 27]) {
        append(array, item)
    }

    fn array_push_front(array: Self, item: T) -> (out: [T; 27]) {
        prepend(array, item)
    }
}

impl<T> ArrayPop<T> for [T; 27] {
    type Output = [T; 26];

    open spec fn pop_back_ensures(array: Self, out: ([T; 26], T)) -> bool {
        is_pop_back(array, out)
    }

    open spec fn pop_front_ensures(array: Self, out: ([T; 26], T)) -> bool {
        is_pop_front(array, out)
    }

    fn array_pop_back(array: Self) -> (out: ([T; 26], T)) {
        split_last(array)
    }

    fn array_pop_front(array: Self) -> (out: ([T; 26], T)) {
        split_first(array)
    }
}

impl<T> ArrayPush<T> for [T; 27] {
    type Output = [T; 28];

    open spec fn push_back_ensures(array: Self, item: T, out: [T; 28]) -> bool {
        is_push_back(array, item, out)
    }

    open spec fn push_front_ensures(array: Self, item: T, out: [T; 28]) -> bool {
        is_push_front(array, item, out)
    }

    fn array_push_back(array: Self, item: T) -> (out: [T; 28]) {
        append(array, item)
    }

    fn array_push_front(array: Self, item: T) -> (out: [T; 28]) {
        prepend(array, item)
    }
}

impl<T> ArrayPop<T> for [T; 28] {
    type Output = [T; 27];

    open spec fn pop_back_ensures(array: Self, out: ([T; 27], T)) -> bool {
        is_pop_back(array, out)
    }

    open spec fn pop_front_ensures(array: Self, out: ([T; 27], T)) -> bool {
        is_pop_front(array, out)
    }

    fn array_pop_back(array: Self) -> (out: ([T; 27], T)) {
        split_last(array)
    }

    fn array_pop_front(array: Self) -> (out: ([T; 27], T)) {
        split_first(array)
    }
}

impl<T> ArrayPush<T> for [T; 28] {
    type Output = [T; 29];

    open spec fn push_back_ensures(array: Self, item: T, out: [T; 29]) -> bool {
        is_push_back(array, item, out)
    }

    open spec fn push_front_ensures(array: Self, item: T, out: [T; 29]) -> bool {
        is_push_front(array, item, out)
    }

    fn array_push_back(array: Self, item: T) -> (out: [T; 29]) {
        append(array, item)
    }

    fn array_push_front(array: Self, item: T) -> (out: [T; 29]) {
        prepend(array, item)
    }
}

impl<T> ArrayPop<T> for [T; 29] {
    type Output = [T; 28];

    open spec fn pop_back_ensures(array: Self, out: ([T; 28], T)) -> bool {
        is_pop_back(array, out)
    }

    open spec fn pop_front_ensures(array: Self, out: ([T; 28], T)) -> bool {
        is_pop_front(array, out)
    }

    fn array_pop_back(array: Self) -> (out: ([T; 28], T)) {
        split_last(array)
    }

    fn array_pop_front(array: Self) -> (out: ([T; 28], T)) {
        split_first(array)
    }
}

impl<T> ArrayPush<T> for [T; 29] {
    type Output = [T; 30];

    open spec fn push_back_ensures(array: Self, item: T, out: [T; 30]) -> bool {
        is_push_back(array, item, out)
    }

    open spec fn push_front_ensures(array: Self, item: T, out: [T; 30]) -> bool {
        is_push_front(array, item, out)
    }

    fn array_push_back(array: Self, item: T) -> (out: [T; 30]) {
        append(array, item)
    }

    fn array_push_front(array: Self, item: T) -> (out: [T; 30]) {
        prepend(array, item)
    }
}

impl<T> ArrayPop<T> for [T; 30] {
    type Output = [T; 29];

    open spec fn pop_back_ensures(array: Self, out: ([T; 29], T)) -> bool {
        is_pop_back(array, out)
    }

    open spec fn pop_front_ensures(array: Self, out: ([T; 29], T)) -> bool {
        is_pop_front(array, out)
    }

    fn array_pop_back(array: Self) -> (out: ([T; 29], T)) {
        split_last(array)
    }

    fn array_pop_front(array: Self) -> (out: ([T; 29], T)) {
        split_first(array)
    }
}

impl<T> ArrayPush<T> for [T; 30] {
    type Output = [T; 31];

    open spec fn push_back_ensures(array: Self, item: T, out: [T; 31]) -> bool {
        is_push_back(array, item, out)
    }

    open spec fn push_front_ensures(array: Self, item: T, out: [T; 31]) -> bool {
        is_push_front(array, item, out)
    }

    fn array_push_back(array: Self, item: T) -> (out: [T; 31]) {
        append(array, item)
    }

    fn array_push_front(array: Self, item: T) -> (out: [T; 31]) {
        prepend(array, item)
    }
}

impl<T> ArrayPop<T> for [T; 31] {
    type Output = [T; 30];

    open spec fn pop_back_ensures(array: Self, out: ([T; 30], T)) -> bool {
        is_pop_back(array, out)
    }

    open spec fn pop_front_ensures(array: Self, out: ([T; 30], T)) -> bool {
        is_pop_front(array, out)
    }

    fn array_pop_back(array: Self) -> (out: ([T; 30], T)) {
        split_last(array)
    }

    fn array_pop_front(array: Self) -> (out: ([T; 30], T)) {
        split_first(array)
    }
}

impl<T> ArrayPush<T> for [T; 31] {
    type Output = [T; 32];

    open spec fn push_back_ensures(array: Self, item: T, out: [T; 32]) -> bool {
        is_push_back(array, item, out)
    }

    open spec fn push_front_ensures(array: Self, item: T, out: [T; 32]) -> bool {
        is_push_front(array, item, out)
    }

    fn array_push_back(array: Self, item: T) -> (out: [T; 32]) {
        append(array, item)
    }

    fn array_push_front(array: Self, item: T) -> (out: [T; 32]) {
        prepend(array, item)
    }
}

impl<T> ArrayPop<T> for [T; 32] {
    type Output = [T; 31];

    open spec fn pop_back_ensures(array: Self, out: ([T; 31], T)) -> bool {
        is_pop_back(array, out)
    }

    open spec fn pop_front_ensures(array: Self, out: ([T; 31], T)) -> bool {
        is_pop_front(array, out)
    }

    fn array_pop_back(array: Self) -> (out: ([T; 31], T)) {
        split_last(array)
    }

    fn array_pop_front(array: Self) -> (out: ([T; 31], T)) {
        split_first(array)
    }
}

} // verus!
