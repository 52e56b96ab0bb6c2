use hello_rust::rect::Rectangle;
use hello_rust::{multiply, pick_one};

#[test]
fn area_before_and_after_inc() {
    let mut rect = Rectangle { width: 10, height: 5 };
    assert_eq!(rect.area(), 50);
    rect.inc_width(5);
    assert_eq!(rect.area(), 75);
}

#[test]
fn area_tracks_many_increments() {
    let mut rect = Rectangle { width: 0, height: 7 };
    let mut width: u32 = 0;
    for delta in [1u32, 2, 3, 10, 100] {
        rect.inc_width(delta);
        width += delta;
        assert_eq!(rect.area(), width * 7);
    }
}

#[test]
fn zero_sized_area() {
    let rect = Rectangle { width: 0, height: 9 };
    assert_eq!(rect.area(), 0);
}

#[test]
fn multiply_examples() {
    assert_eq!(multiply(15, 1000), 15000);
    assert_eq!(multiply(-3, 4), -12);
    assert_eq!(multiply(0, i16::MAX), 0);
}

#[test]
fn pick_one_follows_the_toss() {
    assert_eq!(pick_one(true, "heads", "tails"), "heads");
    assert_eq!(pick_one(false, "heads", "tails"), "tails");
    assert_eq!(pick_one(true, 500, 1000), 500);
    assert_eq!(pick_one(false, 500, 1000), 1000);
}
