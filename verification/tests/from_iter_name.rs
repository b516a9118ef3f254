use arraytools::ArrayTools;
#[allow(unused_imports)]
use std::iter::FromIterator;

#[test]
fn from_iter_is_not_ambiguous_with_std() {
    <[i16; 5]>::from_iter(1..);
}
