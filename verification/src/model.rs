//! What each operation returns, as predicates over arrays.
//!
//! An array is read through its view: the sequence of its elements. A
//! function that the caller supplies is read through its own contract, so a
//! predicate that speaks of such a function says of each element that the
//! function may return it for the argument it was given.

use vstd::prelude::*;

verus! {

/// Whether `f` may be called to fill `count` positions.
pub open spec fn can_generate<T, F: FnMut() -> T>(f: F, count: nat) -> bool {
    count > 0 ==> call_requires(f, ())
}

/// Whether every element of `out` is a result of `f`.
pub open spec fn is_generated<T, F: FnMut() -> T, const N: usize>(f: F, out: [T; N]) -> bool {
    forall|i: int| 0 <= i < N ==> call_ensures(f, (), #[trigger] out[i])
}

/// Whether the last element of `out` is `x` itself and every element before
/// it is a clone of `x`.
pub open spec fn is_repeat<T: Clone, const N: usize>(x: T, out: [T; N]) -> bool {
    &&& forall|i: int| 0 <= i < N - 1 ==> cloned(x, #[trigger] out[i])
    &&& N > 0 ==> out[N - 1] == x
}

/// Whether every element of `out` is its own position.
pub open spec fn is_indices<const N: usize>(out: [usize; N]) -> bool {
    forall|i: int| 0 <= i < N ==> #[trigger] out[i] == i
}

/// Whether `f` may be called on every element of `array`.
pub open spec fn can_map<T, U, F: FnMut(T) -> U, const N: usize>(array: [T; N], f: F) -> bool {
    forall|i: int| 0 <= i < N ==> call_requires(f, (#[trigger] array[i],))
}

/// Whether the element of `out` at each position is a result of `f` on the
/// element of `array` at that position.
pub open spec fn is_map<T, U, F: FnMut(T) -> U, const N: usize>(
    array: [T; N],
    f: F,
    out: [U; N],
) -> bool {
    forall|i: int| 0 <= i < N ==> call_ensures(f, (array[i],), #[trigger] out[i])
}

/// Whether the element of `out` at each position is the pair of the elements
/// of `array` and of `other` at that position.
pub open spec fn is_zip<T, U, const N: usize>(
    array: [T; N],
    other: [U; N],
    out: [(T, U); N],
) -> bool {
    forall|i: int| 0 <= i < N ==> #[trigger] out[i] == (array[i], other[i])
}

/// Whether `f` may be called on the elements of `array` and `other` at every
/// position.
pub open spec fn can_zip_with<T, U, V, F: FnMut(T, U) -> V, const N: usize>(
    array: [T; N],
    other: [U; N],
    f: F,
) -> bool {
    forall|i: int| 0 <= i < N ==> call_requires(f, (#[trigger] array[i], other[i]))
}

/// Whether the element of `out` at each position is a result of `f` on the
/// elements of `array` and of `other` at that position.
pub open spec fn is_zip_with<T, U, V, F: FnMut(T, U) -> V, const N: usize>(
    array: [T; N],
    other: [U; N],
    f: F,
    out: [V; N],
) -> bool {
    forall|i: int| 0 <= i < N ==> call_ensures(f, (array[i], other[i]), #[trigger] out[i])
}

/// Whether the element of `out` at each position refers to the element of
/// `array` at that position.
pub open spec fn is_ref_array<'a, T, const N: usize>(array: &'a [T; N], out: [&'a T; N]) -> bool {
    forall|i: int| 0 <= i < N ==> *(#[trigger] out[i]) == array[i]
}

/// Whether `out` holds the elements of `array`, in their order, and then `item`.
pub open spec fn is_push_back<T, const N: usize, const M: usize>(
    array: [T; N],
    item: T,
    out: [T; M],
) -> bool {
    out@ == array@.push(item)
}

/// Whether `out` holds `item` and then the elements of `array`, in their order.
pub open spec fn is_push_front<T, const N: usize, const M: usize>(
    array: [T; N],
    item: T,
    out: [T; M],
) -> bool {
    out@ == seq![item] + array@
}

/// Whether `out` is `array` without its last element, and that element.
pub open spec fn is_pop_back<T, const M: usize, const N: usize>(
    array: [T; M],
    out: ([T; N], T),
) -> bool {
    &&& M > 0
    &&& out.0@ == array@.drop_last()
    &&& out.1 == array@.last()
}

/// Whether `out` is `array` without its first element, and that element.
pub open spec fn is_pop_front<T, const M: usize, const N: usize>(
    array: [T; M],
    out: ([T; N], T),
) -> bool {
    &&& M > 0
    &&& out.0@ == array@.drop_first()
    &&& out.1 == array@.first()
}

} // verus!
