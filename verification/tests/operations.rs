use arraytools::functions;
use arraytools::ArrayTools;
use std::cell::Cell;
use std::rc::Rc;

/// A value that counts how often it is cloned, and knows whether it is a clone.
#[derive(Debug)]
struct Counted {
    clones: Rc<Cell<usize>>,
    drops: Rc<Cell<usize>>,
    is_clone: bool,
}

impl Clone for Counted {
    fn clone(&self) -> Self {
        self.clones.set(self.clones.get() + 1);
        Counted { clones: self.clones.clone(), drops: self.drops.clone(), is_clone: true }
    }
}

impl Drop for Counted {
    fn drop(&mut self) {
        self.drops.set(self.drops.get() + 1);
    }
}

fn counted() -> (Counted, Rc<Cell<usize>>, Rc<Cell<usize>>) {
    let clones = Rc::new(Cell::new(0));
    let drops = Rc::new(Cell::new(0));
    (Counted { clones: clones.clone(), drops: drops.clone(), is_clone: false }, clones, drops)
}

#[test]
fn mutable_projection_writes_through() {
    let mut a = [1];
    *a.as_mut_array()[0] = 2;
    assert_eq!(a, [2]);
}

#[test]
fn mutable_projection_gives_disjoint_references() {
    let mut a = [1, 2, 3, 4];
    {
        let refs = a.as_mut_array();
        let [first, second, third, fourth] = refs;
        *fourth += 40;
        *first += 10;
        *third += 30;
        *second += 20;
    }
    assert_eq!(a, [11, 22, 33, 44]);
}

#[test]
fn mutable_projection_reads_the_elements_in_place() {
    let mut a = [String::from("a"), String::from("b"), String::from("c")];
    let refs = a.as_mut_array();
    assert_eq!(*refs[0], "a");
    assert_eq!(*refs[1], "b");
    assert_eq!(*refs[2], "c");
}

#[test]
fn mutable_projection_of_the_empty_array() {
    let mut a: [u8; 0] = [];
    let refs: [&mut u8; 0] = a.as_mut_array();
    assert_eq!(refs.len(), 0);
}

#[test]
fn shared_projection_refers_to_each_element() {
    let a = [String::from("x"), String::from("y")];
    let refs = a.as_ref_array();
    assert!(std::ptr::eq(refs[0], &a[0]));
    assert!(std::ptr::eq(refs[1], &a[1]));
    assert_eq!(refs, [&"x".to_string(), &"y".to_string()]);
}

#[test]
fn shared_projection_of_five() {
    let array = &[1, 2, 3, 4, 5];
    assert_eq!(array.as_ref_array(), [&1, &2, &3, &4, &5]);
}

#[test]
fn for_each_through_mutable_projection() {
    let mut array = [1u8, 10, 100];
    array.as_mut_array().for_each(|x: &mut u8| *x += 10);
    assert_eq!(array, [11, 20, 110]);
}

#[test]
fn for_each_visits_in_order() {
    let mut seen = Vec::new();
    ArrayTools::for_each([3, 1, 2], |x| seen.push(x));
    assert_eq!(seen, vec![3, 1, 2]);
    let mut again = Vec::new();
    functions::for_each([3, 1, 2], |x| again.push(x));
    assert_eq!(again, vec![3, 1, 2]);
}

#[test]
fn map_adds_ten() {
    assert_eq!(ArrayTools::map([1, 10, 100], |x| x + 10), [11, 20, 110]);
    assert_eq!(functions::map([1, 10, 100], |x| x + 10), [11, 20, 110]);
}

#[test]
fn map_changes_the_element_type() {
    let words = ArrayTools::map([1u8, 22, 133], |x| x.to_string());
    assert_eq!(words, ["1".to_string(), "22".to_string(), "133".to_string()]);
}

#[test]
fn map_applies_in_increasing_order() {
    let mut order = Vec::new();
    let out = ArrayTools::map([10, 20, 30, 40], |x| {
        order.push(x);
        order.len()
    });
    assert_eq!(order, vec![10, 20, 30, 40]);
    assert_eq!(out, [1, 2, 3, 4]);
}

#[test]
fn map_of_the_empty_array_calls_nothing() {
    let mut calls = 0;
    let empty: [u8; 0] = [];
    let out: [u16; 0] = ArrayTools::map(empty, |x| {
        calls += 1;
        u16::from(x)
    });
    assert_eq!(out, []);
    assert_eq!(calls, 0);
}

#[test]
fn map_moves_each_element_once() {
    let (value, clones, drops) = counted();
    let out = ArrayTools::map([value], |c| (c, 1));
    assert_eq!(clones.get(), 0);
    assert_eq!(drops.get(), 0);
    assert!(!out[0].0.is_clone);
    drop(out);
    assert_eq!(drops.get(), 1);
}

#[test]
fn zip_pairs_by_position() {
    assert_eq!(ArrayTools::zip([1, 2], ["one", "two"]), [(1, "one"), (2, "two")]);
    assert_eq!(
        ArrayTools::zip([10, 20, 30], [1.0, 2.0, 3.0]),
        [(10, 1.0), (20, 2.0), (30, 3.0)]
    );
}

#[test]
fn zip_of_empty_arrays() {
    let a: [u8; 0] = [];
    let b: [char; 0] = [];
    assert_eq!(ArrayTools::zip(a, b), []);
}

#[test]
fn zip_with_adds() {
    assert_eq!([10, 20, 30].zip_with([3, 2, 1], std::ops::Add::add), [13, 22, 31]);
    assert_eq!(functions::zip_with([10, 20, 30], [3, 2, 1], |a, b| a + b), [13, 22, 31]);
}

#[test]
fn zip_with_applies_in_increasing_order() {
    let mut order = Vec::new();
    let out = ArrayTools::zip_with([1, 2, 3], [10, 20, 30], |a, b| {
        order.push((a, b));
        a * b
    });
    assert_eq!(order, vec![(1, 10), (2, 20), (3, 30)]);
    assert_eq!(out, [10, 40, 90]);
}

#[test]
fn generate_doubles() {
    let mut x = 1;
    let array: [_; 5] = ArrayTools::generate(|| {
        x *= 2;
        x
    });
    assert_eq!(array, [2, 4, 8, 16, 32]);
    let mut state = 1;
    let other: [i32; 4] = functions::generate(|| {
        state *= 2;
        state
    });
    assert_eq!(other, [2, 4, 8, 16]);
}

#[test]
fn generate_calls_once_per_position_in_order() {
    let mut calls = 0usize;
    let array: [usize; 7] = ArrayTools::generate(|| {
        calls += 1;
        calls
    });
    assert_eq!(array, [1, 2, 3, 4, 5, 6, 7]);
    assert_eq!(calls, 7);
}

#[test]
fn generate_of_length_zero_never_calls() {
    let mut calls = 0usize;
    let array: [usize; 0] = ArrayTools::generate(|| {
        calls += 1;
        calls
    });
    assert_eq!(array, []);
    assert_eq!(calls, 0);
}

#[test]
fn generate_of_length_one_calls_once() {
    let mut calls = 0usize;
    let array: [usize; 1] = ArrayTools::generate(|| {
        calls += 1;
        calls
    });
    assert_eq!(array, [1]);
    assert_eq!(calls, 1);
}

#[test]
fn generate_beyond_thirty_two() {
    let mut next = 0u32;
    let array: [u32; 100] = ArrayTools::generate(|| {
        next += 3;
        next
    });
    for (i, x) in array.iter().enumerate() {
        assert_eq!(*x as usize, 3 * (i + 1));
    }
}

#[test]
fn repeat_clones_all_but_the_last() {
    let (value, clones, drops) = counted();
    let array: [Counted; 4] = ArrayTools::repeat(value);
    assert_eq!(clones.get(), 3);
    assert_eq!(drops.get(), 0);
    assert!(array[0].is_clone);
    assert!(array[1].is_clone);
    assert!(array[2].is_clone);
    assert!(!array[3].is_clone);
}

#[test]
fn repeat_of_length_one_moves_the_value() {
    let (value, clones, drops) = counted();
    let array: [Counted; 1] = ArrayTools::repeat(value);
    assert_eq!(clones.get(), 0);
    assert_eq!(drops.get(), 0);
    assert!(!array[0].is_clone);
}

#[test]
fn repeat_of_length_zero_drops_the_value() {
    let (value, clones, drops) = counted();
    let array: [Counted; 0] = ArrayTools::repeat(value);
    assert_eq!(array.len(), 0);
    assert_eq!(clones.get(), 0);
    assert_eq!(drops.get(), 1);
}

#[test]
fn repeat_of_strings() {
    let s = "hello".to_string();
    assert_eq!(<[String; 3]>::repeat(s).as_ref_array(), ["hello", "hello", "hello"]);
}

#[test]
fn repeat_of_vectors() {
    let mut v = Vec::with_capacity(10);
    v.push(42);
    let array: [_; 5] = ArrayTools::repeat(v);
    assert_eq!(array, [[42], [42], [42], [42], [42]]);
    assert_eq!(array[3].capacity(), 1);
    assert_eq!(array[4].capacity(), 10);
}

#[test]
fn indices_count_from_zero() {
    let array: [_; 5] = ArrayTools::indices();
    assert_eq!(array, [0, 1, 2, 3, 4]);
    let ten: [usize; 10] = ArrayTools::indices();
    assert_eq!(ten, [0, 1, 2, 3, 4, 5, 6, 7, 8, 9]);
}

#[test]
fn indices_of_the_shortest_and_of_a_long_array() {
    let none: [usize; 0] = ArrayTools::indices();
    assert_eq!(none, []);
    let one: [usize; 1] = ArrayTools::indices();
    assert_eq!(one, [0]);
    let many: [usize; 300] = ArrayTools::indices();
    for (i, x) in many.iter().enumerate() {
        assert_eq!(*x, i);
    }
}

#[test]
fn from_iter_takes_a_prefix() {
    assert_eq!(<[i16; 4]>::from_iter(1..), Some([1, 2, 3, 4]));
    assert_eq!(<[_; 4]>::from_iter(1..5), Some([1, 2, 3, 4]));
    assert_eq!(<[_; 4]>::from_iter(1..6), Some([1, 2, 3, 4]));
    assert_eq!(<[u8; 1]>::from_iter(Some(1).into_iter()), Some([1]));
}

#[test]
fn from_iter_is_none_on_a_short_iterator() {
    assert_eq!(<[i32; 4]>::from_iter(1..4), None);
    assert_eq!(<[u8; 1]>::from_iter(None.into_iter()), None);
    assert_eq!(<[u8; 3]>::from_iter(vec![7, 8].into_iter()), None);
}

#[test]
fn from_iter_of_length_zero_takes_nothing() {
    let mut it = vec![1, 2, 3].into_iter();
    let none: Option<[i32; 0]> = ArrayTools::from_iter(&mut it);
    assert_eq!(none, Some([]));
    assert_eq!(it.next(), Some(1));
}

#[test]
fn from_iter_leaves_what_follows_the_prefix() {
    let mut it = 10..20;
    let first: Option<[i32; 3]> = ArrayTools::from_iter(&mut it);
    assert_eq!(first, Some([10, 11, 12]));
    assert_eq!(it.next(), Some(13));
}

#[test]
fn from_iter_keeps_the_order_of_the_items() {
    let words = vec!["c".to_string(), "a".to_string(), "b".to_string(), "z".to_string()];
    let out: Option<[String; 3]> = ArrayTools::from_iter(words.into_iter());
    assert_eq!(out, Some(["c".to_string(), "a".to_string(), "b".to_string()]));
}

#[test]
fn slices_cover_the_whole_array() {
    let mut array: [i32; 5] = [1, 2, 3, 4, 5];
    {
        let slice: &[i32] = ArrayTools::as_slice(&array);
        assert_eq!(slice.len(), 5);
        assert_eq!(slice, &[1, 2, 3, 4, 5]);
    }
    {
        let slice: &mut [i32] = ArrayTools::as_mut_slice(&mut array);
        assert_eq!(slice.len(), 5);
        slice[4] = 50;
        slice[0] = 10;
    }
    assert_eq!(array, [10, 2, 3, 4, 50]);
}

#[test]
fn len_is_the_length_of_the_type() {
    assert_eq!(<[u8; 0] as ArrayTools>::LEN, 0);
    assert_eq!(<[String; 1] as ArrayTools>::LEN, 1);
    assert_eq!(<[(u8, char); 32] as ArrayTools>::LEN, 32);
    assert_eq!(<[i64; 1000] as ArrayTools>::LEN, 1000);
}

#[test]
fn push_adds_at_either_end() {
    assert_eq!([1, 2].push_back(10), [1, 2, 10]);
    assert_eq!([1, 2].push_front(10), [10, 1, 2]);
    let empty: [char; 0] = [];
    assert_eq!(empty.push_back('x'), ['x']);
    assert_eq!(empty.push_front('y'), ['y']);
}

#[test]
fn pop_removes_at_either_end() {
    assert_eq!([1, 2, 3].pop_back(), ([1, 2], 3));
    assert_eq!([1, 2, 3].pop_front(), ([2, 3], 1));
    assert_eq!(['x'].pop_back(), ([], 'x'));
    assert_eq!(['y'].pop_front(), ([], 'y'));
}

#[test]
fn push_reaches_the_longest_array() {
    let long: [usize; 31] = ArrayTools::indices();
    let back = long.push_back(99);
    assert_eq!(back.len(), 32);
    assert_eq!(back[31], 99);
    assert_eq!(back[..31], long[..]);
    let front = long.push_front(77);
    assert_eq!(front.len(), 32);
    assert_eq!(front[0], 77);
    assert_eq!(front[1..], long[..]);
}

#[test]
fn pop_starts_from_the_longest_array() {
    let long: [usize; 32] = ArrayTools::indices();
    let (front, last) = long.pop_back();
    assert_eq!(last, 31);
    assert_eq!(front.len(), 31);
    assert_eq!(front[..], long[..31]);
    let (back, first) = long.pop_front();
    assert_eq!(first, 0);
    assert_eq!(back.len(), 31);
    assert_eq!(back[..], long[1..]);
}

#[test]
fn push_and_pop_move_without_cloning() {
    let (value, clones, drops) = counted();
    let one = [value];
    let (other, _, _) = counted();
    let two = one.push_front(other);
    let (rest, last) = two.pop_back();
    assert_eq!(clones.get(), 0);
    assert_eq!(drops.get(), 0);
    assert!(!last.is_clone);
    assert_eq!(rest.len(), 1);
}

#[test]
fn tuples_and_arrays_correspond() {
    assert_eq!(<[_; 3]>::from_tuple((1, 2, 3)), [1, 2, 3]);
    assert_eq!([1, 2, 3].into_tuple(), (1, 2, 3));
    let mut array = [2, 3, 5, 7, 11];
    assert_eq!(array.into_tuple(), (2, 3, 5, 7, 11));
    array = ArrayTools::from_tuple((1, 1, 2, 3, 5));
    assert_eq!(array, [1, 1, 2, 3, 5]);
}

#[test]
fn tuple_of_one_component() {
    assert_eq!(<[i32; 1]>::from_tuple((3,)), [3]);
    assert_eq!([3].into_tuple(), (3,));
}

#[test]
fn tuple_of_no_component() {
    let empty: [u8; 0] = ArrayTools::from_tuple(());
    assert_eq!(empty, []);
    let unit: () = empty.into_tuple();
    assert_eq!(unit, ());
}

#[test]
fn tuple_of_twelve_keeps_every_position() {
    let array = [10, 11, 12, 13, 14, 15, 16, 17, 18, 19, 20, 21];
    let tuple = array.into_tuple();
    assert_eq!(tuple, (10, 11, 12, 13, 14, 15, 16, 17, 18, 19, 20, 21));
    let back: [i32; 12] = ArrayTools::from_tuple(tuple);
    assert_eq!(back, array);
}

#[test]
fn tuple_of_thirty_two_keeps_every_position() {
    let array: [usize; 32] = ArrayTools::indices();
    let tuple = array.into_tuple();
    assert_eq!(tuple.0, 0);
    assert_eq!(tuple.1, 1);
    assert_eq!(tuple.15, 15);
    assert_eq!(tuple.16, 16);
    assert_eq!(tuple.30, 30);
    assert_eq!(tuple.31, 31);
    let back: [usize; 32] = ArrayTools::from_tuple(tuple);
    assert_eq!(back, array);
}

#[test]
fn tuple_conversion_moves_without_cloning() {
    let (a, clones, drops) = counted();
    let (b, _, _) = counted();
    let tuple = [a, b].into_tuple();
    let back: [Counted; 2] = ArrayTools::from_tuple(tuple);
    assert_eq!(clones.get(), 0);
    assert_eq!(drops.get(), 0);
    assert!(!back[0].is_clone);
}

#[test]
fn methods_read_as_in_the_overview() {
    assert_eq!([1, 2].zip(["one", "two"]), [(1, "one"), (2, "two")]);
    assert_eq!([1, 2].push_back(10), [1, 2, 10]);
    assert_eq!([1, 2, 3].into_tuple(), (1, 2, 3));
    assert_eq!(<[usize; 4]>::indices(), [0, 1, 2, 3]);
}
