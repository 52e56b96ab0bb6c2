//! The divisibility classifier: each number maps to "fizzbuzz", "fizz",
//! "buzz", or its own decimal text.

use vstd::prelude::*;
use vstd::string::StringExecFns;
use crate::decimal::{spec_u32_string, u32_to_string};
use vstd::arithmetic::div_mod::lemma_mod_mod;

verus! {

/// Whether `lhs` is a multiple of `rhs`; nothing is a multiple of zero.
pub open spec fn spec_divisible(lhs: u32, rhs: u32) -> bool {
    rhs != 0 && lhs % rhs == 0
}

pub fn is_divisible_by(lhs: u32, rhs: u32) -> (r: bool)
    ensures
        r == spec_divisible(lhs, rhs),
{
    if rhs == 0 {
        return false;
    }
    lhs % rhs == 0
}

/// The category of `n`: the joint word for multiples of both 3 and 5, one
/// word for multiples of only one of them, and the numeral otherwise.
pub open spec fn spec_fizzbuzz(n: u32) -> Seq<char> {
    if spec_divisible(n, 3) && spec_divisible(n, 5) {
        "fizzbuzz"@
    } else if spec_divisible(n, 3) {
        "fizz"@
    } else if spec_divisible(n, 5) {
        "buzz"@
    } else {
        spec_u32_string(n as nat)
    }
}

pub fn fizzbuzz(n: u32) -> (r: String)
    ensures
        r@ == spec_fizzbuzz(n),
{
    match (is_divisible_by(n, 3), is_divisible_by(n, 5)) {
        (true, true) => String::from_str("fizzbuzz"),
        (true, false) => String::from_str("fizz"),
        (false, true) => String::from_str("buzz"),
        (false, false) => u32_to_string(n),
    }
}

/// The classifier's categories, stated over divisibility by 15: a multiple
/// of 15 gets the joint word, a multiple of only 3 the first word, a
/// multiple of only 5 the second, and anything else its own numeral.
pub proof fn lemma_fizzbuzz_categories(n: u32)
    ensures
        n % 15 == 0 ==> spec_fizzbuzz(n) == "fizzbuzz"@,
        n % 3 == 0 && n % 5 != 0 ==> spec_fizzbuzz(n) == "fizz"@,
        n % 5 == 0 && n % 3 != 0 ==> spec_fizzbuzz(n) == "buzz"@,
        n % 3 != 0 && n % 5 != 0 ==> spec_fizzbuzz(n) == spec_u32_string(n as nat),
{
    if n % 15 == 0 {
        lemma_mod_mod(n as int, 3, 5);
        lemma_mod_mod(n as int, 5, 3);
        assert(n as int % (3int * 5) == n % 15);
        assert(n as int % (5int * 3) == n % 15);
    }
}

/// The categories of 1 through `n`, in order.
pub fn fizzbuzz_to(n: u32) -> (r: Vec<String>)
    ensures
        r@.len() == n,
        forall|i: int| 0 <= i < n ==> #[trigger] r@[i]@ == spec_fizzbuzz((i + 1) as u32),
{
    let mut r: Vec<String> = Vec::new();
    let mut k: u32 = 0;
    while k < n
        invariant
            k <= n,
            r@.len() == k,
            forall|i: int| 0 <= i < k ==> #[trigger] r@[i]@ == spec_fizzbuzz((i + 1) as u32),
        decreases n - k,
    {
        k = k + 1;
        let line = fizzbuzz(k);
        r.push(line);
    }
    r
}

/// The categories printed by the exercise's driver: 1 through 20.
pub fn main4() -> (r: Vec<String>)
    ensures
        r@.len() == 20,
        forall|i: int| 0 <= i < 20 ==> #[trigger] r@[i]@ == spec_fizzbuzz((i + 1) as u32),
{
    fizzbuzz_to(20)
}

} // verus!
