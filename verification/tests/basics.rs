use arraytools::ArrayTools;

#[test]
fn it_works() {
    let mut a = [1];
    *a.as_mut_array()[0] = 2;
    assert_eq!(a, [2]);

    a = ArrayTools::from_tuple((3,));
    assert_eq!(a, [3]);
    assert_eq!(a.into_tuple(), (3,));

    let a = a.map(|x| x as f32);
    assert_eq!(a, [3.0]);

    let a0: [u8; 0] = [];
    let a1 = a0.push_back(Default::default());
    assert_eq!(a1, [0]);
    let a2 = a1.push_back(2);
    assert_eq!(a2, [0, 2]);
    let b1 = a2.pop_back();
    assert_eq!(b1, ([0], 2));

    let iota: [_; 10] = ArrayTools::indices();
    assert_eq!(iota, [0, 1, 2, 3, 4, 5, 6, 7, 8, 9]);

    // The last position takes the value itself, with the room it had; the
    // positions before it take clones, which have room for what they hold.
    let mut v = Vec::with_capacity(111);
    v.push(1);
    let a: [_; 3] = ArrayTools::repeat(v);
    assert_eq!(a[0], [1]);
    assert_eq!(a[1], [1]);
    assert_eq!(a[2], [1]);
    assert_eq!(a[0].capacity(), 1);
    assert_eq!(a[1].capacity(), 1);
    assert_eq!(a[2].capacity(), 111);

    let sums = [1, 2, 3].zip_with([30, 20, 10], std::ops::Add::add);
    assert_eq!(sums, [31, 22, 13]);
}
