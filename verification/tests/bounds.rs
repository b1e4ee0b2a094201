//! Tests for the difficulty ramps: operand bounds and hazard speed.

use mathnaut::hazard::{new_hazard, update_hazard_speed, Hazard};
use mathnaut::question::{add_bound, mul_bound};

fn speed_at(score: u32) -> u32 {
    let mut h: Hazard = new_hazard();
    update_hazard_speed(&mut h, score);
    h.speed
}

#[test]
fn addition_bound_staircase() {
    assert_eq!(add_bound(0), 10);
    assert_eq!(add_bound(499), 10);
    assert_eq!(add_bound(500), 20);
    assert_eq!(add_bound(999), 20);
    assert_eq!(add_bound(1000), 30);
    assert_eq!(add_bound(5000), 110);
}

#[test]
fn addition_bound_monotonic_and_uncapped() {
    let mut last: u32 = 0;
    for score in (0..20_000).step_by(250) {
        let b = add_bound(score);
        assert!(b >= last);
        last = b;
    }
    assert!(add_bound(1_000_000) > 15, "addition bound keeps growing past the mul cap");
}

#[test]
fn mul_bound_staircase_and_cap() {
    assert_eq!(mul_bound(0), 5);
    assert_eq!(mul_bound(499), 5);
    assert_eq!(mul_bound(500), 10);
    assert_eq!(mul_bound(999), 10);
    assert_eq!(mul_bound(1000), 15);
    assert_eq!(mul_bound(1500), 15);
    assert_eq!(mul_bound(4_000_000_000), 15, "capped forever after");
}

#[test]
fn mul_bound_monotonic() {
    let mut last: u32 = 0;
    for score in (0..5_000).step_by(100) {
        let b = mul_bound(score);
        assert!(b >= last);
        last = b;
    }
}

#[test]
fn hazard_speed_staircase() {
    assert_eq!(speed_at(0), 50);
    assert_eq!(speed_at(499), 50);
    assert_eq!(speed_at(500), 75);
    assert_eq!(speed_at(1499), 75);
    assert_eq!(speed_at(1500), 100);
    assert_eq!(speed_at(2499), 100);
    assert_eq!(speed_at(2500), 125);
}

#[test]
fn hazard_speed_monotonic() {
    let mut last: u32 = 0;
    for score in (0..10_000).step_by(100) {
        let s = speed_at(score);
        assert!(s >= last);
        last = s;
    }
}

#[test]
fn hazard_speed_does_not_move_position() {
    let mut h = Hazard { x: 0, y: 1234, speed: 50 };
    update_hazard_speed(&mut h, 99_999);
    assert_eq!(h.y, 1234);
    assert_eq!(h.x, 0);
}
