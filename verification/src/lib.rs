//! A sample library of two small functions: the sum of two integers and a
//! fixed list of numbers for a caller to print.

use vstd::prelude::*;

verus! {

/// The sum of `a` and `b`.
///
/// The sum has to fit in an `i32`: a pair whose sum lies outside that range
/// is not accepted.
pub fn add(a: i32, b: i32) -> (sum: i32)
    requires
        i32::MIN <= a + b <= i32::MAX,
    ensures
        sum == a + b,
{
    a + b
}

/// The numbers that the sample program prints, one to a line: 1, 2 and 3, in
/// that order.
pub fn public_function() -> (items: Vec<i32>)
    ensures
        items@ == seq![1i32, 2i32, 3i32],
{
    vec![1, 2, 3]
}

} // verus!
