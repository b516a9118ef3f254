use arraytools::ArrayTools;

#[test]
fn array_to_tuple_and_back_is_the_array() {
    let empty: [u8; 0] = [];
    assert_eq!(<[u8; 0]>::from_tuple(empty.into_tuple()), empty);
    let one = ["a".to_string()];
    assert_eq!(<[String; 1]>::from_tuple(one.clone().into_tuple()), one);
    let four = [4, 3, 2, 1];
    assert_eq!(<[i32; 4]>::from_tuple(four.into_tuple()), four);
    let long: [usize; 32] = ArrayTools::indices();
    assert_eq!(<[usize; 32]>::from_tuple(long.into_tuple()), long);
}

#[test]
fn tuple_to_array_and_back_is_the_tuple() {
    assert_eq!(<[u8; 0]>::from_tuple(()).into_tuple(), ());
    assert_eq!(<[char; 1]>::from_tuple(('q',)).into_tuple(), ('q',));
    assert_eq!(<[i8; 3]>::from_tuple((-1, 0, 1)).into_tuple(), (-1, 0, 1));
    let seven = (1u64, 2u64, 3u64, 4u64, 5u64, 6u64, 7u64);
    assert_eq!(<[u64; 7]>::from_tuple(seven).into_tuple(), seven);
}

#[test]
fn pop_back_undoes_push_back() {
    let empty: [i32; 0] = [];
    assert_eq!(empty.push_back(5).pop_back(), (empty, 5));
    let three = [7, 8, 9];
    assert_eq!(three.push_back(10).pop_back(), (three, 10));
    let long: [usize; 31] = ArrayTools::indices();
    assert_eq!(long.push_back(1000).pop_back(), (long, 1000));
}

#[test]
fn pop_front_undoes_push_front() {
    let empty: [i32; 0] = [];
    assert_eq!(empty.push_front(5).pop_front(), (empty, 5));
    let three = [7, 8, 9];
    assert_eq!(three.push_front(6).pop_front(), (three, 6));
    let long: [usize; 31] = ArrayTools::indices();
    assert_eq!(long.push_front(1000).pop_front(), (long, 1000));
}

#[test]
fn map_with_the_identity_is_the_array() {
    let array = [3, 1, 4, 1, 5, 9, 2, 6];
    assert_eq!(ArrayTools::map(array, |x| x), array);
    let words = ["a".to_string(), "b".to_string()];
    assert_eq!(ArrayTools::map(words.clone(), |w| w), words);
    let empty: [u8; 0] = [];
    assert_eq!(ArrayTools::map(empty, |x| x), empty);
}

#[test]
fn map_twice_is_map_with_the_composition() {
    let array = [1i64, 10, 100, 1000];
    let f = |x: i64| x * 3;
    let g = |y: i64| (y - 1).to_string();
    let twice = ArrayTools::map(ArrayTools::map(array, f), g);
    let once = ArrayTools::map(array, |x| g(f(x)));
    assert_eq!(twice, once);
    assert_eq!(once, ["2".to_string(), "29".to_string(), "299".to_string(), "2999".to_string()]);
}

#[test]
fn zip_projects_back_to_both_arrays() {
    let left = [1, 2, 3, 4];
    let right = ['a', 'b', 'c', 'd'];
    let zipped = ArrayTools::zip(left, right);
    assert_eq!(ArrayTools::map(zipped, |pair: (i32, char)| pair.0), left);
    assert_eq!(ArrayTools::map(zipped, |pair: (i32, char)| pair.1), right);
}

#[test]
fn indices_are_the_positions() {
    let array: [usize; 16] = ArrayTools::indices();
    assert_eq!(array, [0, 1, 2, 3, 4, 5, 6, 7, 8, 9, 10, 11, 12, 13, 14, 15]);
}

#[test]
fn generate_counts_its_calls_in_order() {
    let mut calls = Vec::new();
    let array: [usize; 6] = ArrayTools::generate(|| {
        calls.push(calls.len());
        calls.len() * 10
    });
    assert_eq!(calls, vec![0, 1, 2, 3, 4, 5]);
    assert_eq!(array, [10, 20, 30, 40, 50, 60]);
}
