//! Unit tests for the player kinematics.

use mathnaut::player::{facing_right, new_player, update_player, Locomotion, Player};

const FIELD_W: i64 = 10240;

#[test]
fn spawn_pose() {
    let p = new_player();
    assert_eq!(p.x, 700);
    assert_eq!(p.y, 5500);
    assert_eq!(p.vx, 0);
    assert_eq!(p.vy, 0);
    assert_eq!(p.loco, Locomotion::Normal);
}

#[test]
fn gravity_settles_on_ground_and_zeroes_vy() {
    let mut p = new_player();
    for _ in 0..100 {
        update_player(&mut p, false, false, false, FIELD_W);
    }
    assert_eq!(p.y, 6000);
    assert_eq!(p.vy, 0);
}

#[test]
fn boost_overcomes_gravity() {
    let mut p = new_player();
    update_player(&mut p, false, false, true, FIELD_W);
    assert_eq!(p.vy, -1, "boost of 3 against gravity of 2");
    assert_eq!(p.y, 5499);
}

#[test]
fn ceiling_clamp_zeroes_vy() {
    let mut p = new_player();
    p.y = 10;
    p.vy = -100;
    update_player(&mut p, false, false, false, FIELD_W);
    assert_eq!(p.y, 0);
    assert_eq!(p.vy, 0);
}

#[test]
fn left_input_wins_over_right() {
    let mut p = new_player();
    p.x = 2000;
    update_player(&mut p, true, true, false, FIELD_W);
    assert_eq!(p.vx, -30);
    assert_eq!(p.x, 1970);
}

#[test]
fn move_speed_is_fixed() {
    let mut p = new_player();
    p.x = 2000;
    update_player(&mut p, false, true, false, FIELD_W);
    assert_eq!(p.vx, 30);
    assert_eq!(p.x, 2030);
    update_player(&mut p, false, false, false, FIELD_W);
    assert_eq!(p.vx, 0, "velocity zeroed when no move input is held");
    assert_eq!(p.x, 2030);
}

#[test]
fn walls_clamp_position() {
    let mut p = new_player();
    update_player(&mut p, true, false, false, FIELD_W);
    assert_eq!(p.x, 700, "cannot cross the hazard wall");
    p.x = FIELD_W - 600;
    update_player(&mut p, false, true, false, FIELD_W);
    assert_eq!(p.x, FIELD_W - 600, "cannot leave the right edge");
}

#[test]
fn failing_falls_recovers_on_ground() {
    let mut p = Player { x: 3000, y: 2000, vx: 0, vy: 0, loco: Locomotion::Failing };
    let mut ticks = 0;
    while p.loco == Locomotion::Failing && ticks < 200 {
        // Move inputs must be ignored while failing.
        update_player(&mut p, false, true, true, FIELD_W);
        assert_eq!(p.vx, 0);
        assert_eq!(p.x, 3000);
        ticks += 1;
    }
    assert_eq!(p.loco, Locomotion::Normal);
    assert_eq!(p.y, 6000);
    assert_eq!(p.vy, 0);
}

#[test]
fn facing_derived_from_velocity_sign() {
    let mut p = new_player();
    p.x = 2000;
    assert!(facing_right(&p), "at rest the player faces right");
    update_player(&mut p, false, true, false, FIELD_W);
    assert!(!facing_right(&p));
    update_player(&mut p, true, false, false, FIELD_W);
    assert!(facing_right(&p));
}
