//! Laws that relate the operations to one another.
//!
//! Each law is a proof function over the predicates and views that the
//! contracts of the operations use: its `requires` holds what the operations
//! ensure of their results, and its `ensures` what follows for those results.

use crate::model::{is_map, is_pop_back, is_pop_front, is_push_back, is_push_front, is_zip};
use crate::traits::ArrayTuple;
use vstd::prelude::*;

verus! {

/// An array that is turned into its tuple and back is the array it was:
/// where `tuple` is what `into_tuple` returns for `array` and `back` is what
/// `from_tuple` returns for `tuple`, `back` is `array`.
pub proof fn lemma_from_tuple_of_into_tuple<A: ArrayTuple>(array: A, tuple: A::Tuple, back: A)
    requires
        tuple == A::tuple_of(array),
        A::tuple_of(back) == tuple,
    ensures
        back == array,
{
    A::lemma_tuple_of_injective(back, array);
}

/// A tuple that is turned into its array and back is the tuple it was: where
/// `array` is what `from_tuple` returns for `tuple` and `back` is what
/// `into_tuple` returns for `array`, `back` is `tuple`.
pub proof fn lemma_into_tuple_of_from_tuple<A: ArrayTuple>(tuple: A::Tuple, array: A, back: A::Tuple)
    requires
        A::tuple_of(array) == tuple,
        back == A::tuple_of(array),
    ensures
        back == tuple,
{
}

/// Popping at the back what was pushed at the back gives the array and the
/// item back: where `pushed` is what `push_back` returns for `array` and
/// `item`, and `popped` is what `pop_back` returns for `pushed`, `popped` is
/// the pair of `array` and `item`.
pub proof fn lemma_pop_back_of_push_back<T, const N: usize, const M: usize>(
    array: [T; N],
    item: T,
    pushed: [T; M],
    popped: ([T; N], T),
)
    requires
        is_push_back(array, item, pushed),
        is_pop_back(pushed, popped),
    ensures
        popped == (array, item),
{
    assert(array@.push(item).drop_last() == array@);
    assert(popped.0 =~= array);
}

/// Popping at the front what was pushed at the front gives the array and the
/// item back: where `pushed` is what `push_front` returns for `array` and
/// `item`, and `popped` is what `pop_front` returns for `pushed`, `popped` is
/// the pair of `array` and `item`.
pub proof fn lemma_pop_front_of_push_front<T, const N: usize, const M: usize>(
    array: [T; N],
    item: T,
    pushed: [T; M],
    popped: ([T; N], T),
)
    requires
        is_push_front(array, item, pushed),
        is_pop_front(pushed, popped),
    ensures
        popped == (array, item),
{
    assert((seq![item] + array@).drop_first() == array@);
    assert(popped.0 =~= array);
}

/// Mapping with the identity changes nothing: where every result of `f` is
/// its argument and `out` is what `map` returns for `array` and `f`, `out` is
/// `array`.
pub proof fn lemma_map_identity<T, F: FnMut(T) -> T, const N: usize>(
    array: [T; N],
    f: F,
    out: [T; N],
)
    requires
        forall|x: T, y: T| call_ensures(f, (x,), y) ==> y == x,
        is_map(array, f, out),
    ensures
        out == array,
{
    assert(out =~= array);
}

/// Mapping twice is mapping once with the composition: where `f`, `g` and `h`
/// compute `first`, `second` and `second` after `first`, the result of `map`
/// with `g` on the result of `map` with `f` is the result of `map` with `h`.
pub proof fn lemma_map_compose<T, U, V, F, G, H, const N: usize>(
    array: [T; N],
    f: F,
    g: G,
    h: H,
    first: spec_fn(T) -> U,
    second: spec_fn(U) -> V,
    middle: [U; N],
    twice: [V; N],
    once: [V; N],
) where F: FnMut(T) -> U, G: FnMut(U) -> V, H: FnMut(T) -> V
    requires
        forall|x: T, y: U| call_ensures(f, (x,), y) ==> y == first(x),
        forall|y: U, z: V| call_ensures(g, (y,), z) ==> z == second(y),
        forall|x: T, z: V| call_ensures(h, (x,), z) ==> z == second(first(x)),
        is_map(array, f, middle),
        is_map(middle, g, twice),
        is_map(array, h, once),
    ensures
        twice == once,
{
    assert forall|i: int| 0 <= i < N implies twice[i] == once[i] by {
        assert(middle[i] == first(array[i]));
        assert(twice[i] == second(middle[i]));
        assert(once[i] == second(first(array[i])));
    }
    assert(twice =~= once);
}

/// The first components of a zip are the first array and the second
/// components the second: where `out` is what `zip` returns for `array` and
/// `other`, projecting `out` to either side gives that side back.
pub proof fn lemma_zip_projections<T, U, const N: usize>(
    array: [T; N],
    other: [U; N],
    out: [(T, U); N],
)
    requires
        is_zip(array, other, out),
    ensures
        out@.map_values(|pair: (T, U)| pair.0) == array@,
        out@.map_values(|pair: (T, U)| pair.1) == other@,
{
    assert(out@.map_values(|pair: (T, U)| pair.0) =~= array@);
    assert(out@.map_values(|pair: (T, U)| pair.1) =~= other@);
}

} // verus!
