//! Decimal rendering of unsigned integers, used wherever a number is shown
//! as text.

use vstd::prelude::*;

verus! {

/// The character for a single decimal digit.
pub open spec fn spec_digit_char(d: int) -> char {
    if d == 0 {
        '0'
    } else if d == 1 {
        '1'
    } else if d == 2 {
        '2'
    } else if d == 3 {
        '3'
    } else if d == 4 {
        '4'
    } else if d == 5 {
        '5'
    } else if d == 6 {
        '6'
    } else if d == 7 {
        '7'
    } else if d == 8 {
        '8'
    } else {
        '9'
    }
}

/// The decimal digits of `n`, most significant first; empty for `n == 0`.
pub open spec fn spec_digits(n: nat) -> Seq<char>
    decreases n,
{
    if n == 0 {
        Seq::<char>::empty()
    } else {
        spec_digits(n / 10).push(spec_digit_char((n % 10) as int))
    }
}

/// The usual decimal notation for `n`: its digits, except that zero is "0".
pub open spec fn spec_u32_string(n: nat) -> Seq<char> {
    if n == 0 {
        seq!['0']
    } else {
        spec_digits(n)
    }
}

/// Relies on String::push: it appends exactly the given character.
#[verifier::external_body]
pub(crate) fn push_char(s: &mut String, c: char)
    ensures
        final(s)@ == old(s)@.push(c),
{
    s.push(c)
}

fn digit_char(d: u32) -> (c: char)
    requires
        d < 10,
    ensures
        c == spec_digit_char(d as int),
{
    if d == 0 {
        '0'
    } else if d == 1 {
        '1'
    } else if d == 2 {
        '2'
    } else if d == 3 {
        '3'
    } else if d == 4 {
        '4'
    } else if d == 5 {
        '5'
    } else if d == 6 {
        '6'
    } else if d == 7 {
        '7'
    } else if d == 8 {
        '8'
    } else {
        '9'
    }
}

fn push_decimal(s: &mut String, n: u32)
    ensures
        final(s)@ == old(s)@ + spec_digits(n as nat),
    decreases n,
{
    if n == 0 {
        assert(old(s)@ + spec_digits(0) =~= old(s)@);
    } else {
        push_decimal(s, n / 10);
        let c = digit_char(n % 10);
        push_char(s, c);
        assert(s@ =~= old(s)@ + spec_digits(n as nat));
    }
}

/// The usual decimal notation for a signed value: a minus sign before the
/// notation of the magnitude when the value is negative.
pub open spec fn spec_i32_string(x: int) -> Seq<char> {
    if x >= 0 {
        spec_u32_string(x as nat)
    } else {
        seq!['-'] + spec_u32_string((-x) as nat)
    }
}

/// The decimal text of `n`.
pub fn u32_to_string(n: u32) -> (s: String)
    ensures
        s@ == spec_u32_string(n as nat),
{
    let mut s = String::new();
    if n == 0 {
        push_char(&mut s, '0');
        assert(s@ =~= seq!['0']);
    } else {
        push_decimal(&mut s, n);
        assert(s@ =~= spec_digits(n as nat));
    }
    s
}

/// The decimal text of `x`, signed.
pub fn i32_to_string(x: i32) -> (s: String)
    ensures
        s@ == spec_i32_string(x as int),
{
    if x >= 0 {
        u32_to_string(x as u32)
    } else {
        let wide: i64 = -(x as i64);
        let mag: u32 = wide as u32;
        assert(mag == -(x as int));
        let mut s = String::new();
        push_char(&mut s, '-');
        push_decimal(&mut s, mag);
        assert(s@ =~= seq!['-'] + spec_u32_string(mag as nat));
        s
    }
}

} // verus!
