use hello_rust::fizzbuzz::{fizzbuzz, fizzbuzz_to, is_divisible_by, main4};
use hello_rust::decimal::{i32_to_string, u32_to_string};

#[test]
fn classify_examples() {
    assert_eq!(fizzbuzz(15), "fizzbuzz");
    assert_eq!(fizzbuzz(9), "fizz");
    assert_eq!(fizzbuzz(10), "buzz");
    assert_eq!(fizzbuzz(7), "7");
}

#[test]
fn classify_multiples_of_fifteen() {
    for k in 0..20u32 {
        assert_eq!(fizzbuzz(15 * k), "fizzbuzz");
    }
}

#[test]
fn classify_zero_is_joint() {
    assert_eq!(fizzbuzz(0), "fizzbuzz");
}

#[test]
fn fizzbuzz_to_twenty() {
    let lines = fizzbuzz_to(20);
    assert_eq!(lines.len(), 20);
    assert_eq!(lines[0], "1");
    assert_eq!(lines[1], "2");
    assert_eq!(lines[2], "fizz");
    assert_eq!(lines[4], "buzz");
    assert_eq!(lines[14], "fizzbuzz");
    assert_eq!(lines[19], "buzz");
}

#[test]
fn fizzbuzz_to_zero_is_empty() {
    assert!(fizzbuzz_to(0).is_empty());
}

#[test]
fn main4_matches_fizzbuzz_to_twenty() {
    assert_eq!(main4(), fizzbuzz_to(20));
}

#[test]
fn divisibility_corner_cases() {
    assert!(!is_divisible_by(6, 0));
    assert!(!is_divisible_by(0, 0));
    assert!(is_divisible_by(0, 3));
    assert!(is_divisible_by(6, 3));
    assert!(!is_divisible_by(7, 3));
}

#[test]
fn unsigned_decimal_text() {
    assert_eq!(u32_to_string(0), "0");
    assert_eq!(u32_to_string(7), "7");
    assert_eq!(u32_to_string(10), "10");
    assert_eq!(u32_to_string(305), "305");
    assert_eq!(u32_to_string(u32::MAX), "4294967295");
}

#[test]
fn signed_decimal_text() {
    assert_eq!(i32_to_string(0), "0");
    assert_eq!(i32_to_string(42), "42");
    assert_eq!(i32_to_string(-1), "-1");
    assert_eq!(i32_to_string(-305), "-305");
    assert_eq!(i32_to_string(i32::MIN), "-2147483648");
    assert_eq!(i32_to_string(i32::MAX), "2147483647");
}
