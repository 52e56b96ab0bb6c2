//! The greeting banner: a message is wrapped at its own character count and
//! drawn inside a speech bubble with the mascot below it.

use vstd::prelude::*;
use vstd::std_specs::iter::IteratorSpec;

verus! {

/// The bytes of the banner that `ferris_says::say` draws for a message at a
/// wrap width: a function of the two arguments alone.
pub uninterp spec fn banner_of(message: Seq<char>, width: nat) -> Seq<u8>;

/// Relies on ferris_says::say: the banner it writes depends on the message
/// and the wrap width alone, and its only failure is the writer's own —
/// which a `Vec<u8>` writer never gives, since std documents writing to a
/// `Vec` as appending to it, growing it as needed.
#[verifier::external_body]
fn say_to_buffer(message: &str, width: usize) -> (r: Vec<u8>)
    ensures
        r@ == banner_of(message@, width as nat),
{
    let mut buffer: Vec<u8> = Vec::new();
    ferris_says::say(message, width, &mut buffer).unwrap();
    buffer
}

/// The number of characters in `s`.
pub fn char_count(s: &str) -> (n: usize)
    requires
        s@.len() <= usize::MAX,
    ensures
        n == s@.len(),
{
    let mut n: usize = 0;
    for c in it: s.chars()
        invariant
            s@.len() <= usize::MAX,
            it.seq() == s@,
            n == it.index(),
    {
        n = n + 1;
    }
    n
}

/// The banner for a message, wrapped at the message's own character count.
pub fn say_message(message: &str) -> (r: Vec<u8>)
    requires
        message@.len() <= usize::MAX,
    ensures
        r@ == banner_of(message@, message@.len()),
{
    let width = char_count(message);
    say_to_buffer(message, width)
}

} // verus!
