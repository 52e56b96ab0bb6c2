pub mod banner;
pub mod collatz;
pub mod decimal;
pub mod fizzbuzz;
pub mod matrix;
pub mod rect;

use vstd::prelude::*;

verus! {

/// Product of two small integers, as the exercise computes it.
pub fn multiply(x: i16, y: i16) -> (r: i16)
    requires
        i16::MIN <= x * y <= i16::MAX,
    ensures
        r == x * y,
{
    x * y
}

/// Returns one of two values; the caller supplies the coin toss.
pub fn pick_one<T>(take_first: bool, a: T, b: T) -> (r: T)
    ensures
        take_first ==> r == a,
        !take_first ==> r == b,
{
    if take_first {
        a
    } else {
        b
    }
}

} // verus!
