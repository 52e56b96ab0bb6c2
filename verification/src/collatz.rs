//! The Collatz stepper: halve an even value, send an odd value to three
//! times itself plus one, and repeat until the value reaches 1.

use vstd::prelude::*;

verus! {

/// The value that follows `x` in the Collatz iteration.
pub open spec fn spec_collatz_next(x: int) -> int {
    if x % 2 == 0 {
        x / 2
    } else {
        3 * x + 1
    }
}

/// Whether the iteration started at `x` reaches 1 within `fuel` steps while
/// every intermediate value stays representable as an `i32`.
pub open spec fn spec_reaches_one(x: int, fuel: nat) -> bool
    decreases fuel,
{
    if x == 1 {
        true
    } else if fuel == 0 {
        false
    } else if x % 2 == 1 && 3 * x + 1 > i32::MAX {
        false
    } else {
        spec_reaches_one(spec_collatz_next(x), (fuel - 1) as nat)
    }
}

/// One step of the iteration.
pub fn collatz_step(x: i32) -> (r: i32)
    requires
        x >= 1,
        x % 2 == 1 ==> 3 * x + 1 <= i32::MAX,
    ensures
        r == spec_collatz_next(x as int),
        r >= 1,
{
    if x % 2 == 0 {
        x / 2
    } else {
        3 * x + 1
    }
}

/// The whole trace of the iteration from `start`, ending at 1, or `None`
/// when 1 is not reached within `max_steps` steps with every value still an
/// `i32`.
pub fn collatz_sequence(start: i32, max_steps: usize) -> (r: Option<Vec<i32>>)
    requires
        start >= 1,
    ensures
        r is Some <==> spec_reaches_one(start as int, max_steps as nat),
        r matches Some(s) ==> {
            &&& s@.len() >= 1
            &&& s@[0] == start
            &&& s@.last() == 1i32
            &&& forall|k: int|
                0 <= k < s@.len() - 1 ==> #[trigger] s@[k + 1] == spec_collatz_next(s@[k] as int)
            &&& forall|k: int| 0 <= k < s@.len() - 1 ==> #[trigger] s@[k] != 1i32
            &&& forall|k: int| 0 <= k < s@.len() ==> #[trigger] s@[k] >= 1i32
        },
{
    let mut v: Vec<i32> = Vec::new();
    v.push(start);
    let mut x: i32 = start;
    let mut steps: usize = 0;
    while x != 1 && steps < max_steps
        invariant
            x >= 1,
            steps <= max_steps,
            v@.len() == steps + 1,
            v@[0] == start,
            v@.last() == x,
            forall|k: int|
                0 <= k < v@.len() - 1 ==> #[trigger] v@[k + 1] == spec_collatz_next(v@[k] as int),
            forall|k: int| 0 <= k < v@.len() - 1 ==> #[trigger] v@[k] != 1i32,
            forall|k: int| 0 <= k < v@.len() ==> #[trigger] v@[k] >= 1i32,
            spec_reaches_one(start as int, max_steps as nat) == spec_reaches_one(
                x as int,
                (max_steps - steps) as nat,
            ),
        decreases max_steps - steps,
    {
        if x % 2 == 1 && x > (i32::MAX - 1) / 3 {
            proof {
                assert(3 * x + 1 > i32::MAX);
                assert(!spec_reaches_one(x as int, (max_steps - steps) as nat));
            }
            return None;
        }
        proof {
            assert(spec_reaches_one(x as int, (max_steps - steps) as nat)
                == spec_reaches_one(spec_collatz_next(x as int), (max_steps - steps - 1) as nat));
        }
        x = collatz_step(x);
        v.push(x);
        steps = steps + 1;
    }
    if x == 1 {
        Some(v)
    } else {
        proof {
            assert(!spec_reaches_one(x as int, 0));
        }
        None
    }
}

} // verus!
