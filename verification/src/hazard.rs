//! Hazard descent: the entity that sinks toward the ground line.
//!
//! Its speed is derived from the score alone: a base value below a score
//! threshold, then a piecewise-constant staircase that climbs by a fixed
//! step once per further score interval.

use vstd::prelude::*;
use crate::BASE_SPEED;
use crate::GROUND_Y;
use crate::HAZARD_H;
use crate::SPEED_INTERVAL;
use crate::SPEED_STEP;
use crate::SPEED_THRESHOLD;
use vstd::arithmetic::div_mod::lemma_div_is_ordered;

verus! {

/// The descending hazard.  Position in tenths of a pixel; speed in pixels
/// per second, derived from the score and not independently settable.
#[derive(Clone, Copy, PartialEq, Eq, Structural, Debug)]
pub struct Hazard {
    pub x: i64,
    pub y: i64,
    pub speed: u32,
}

/// Descent speed for a score: the base below the threshold; from the
/// threshold on, the base plus the step, plus one further step per
/// completed score interval above the threshold.
pub open spec fn spec_hazard_speed(score: u32) -> int {
    if score < SPEED_THRESHOLD {
        BASE_SPEED as int
    } else {
        BASE_SPEED + SPEED_STEP * (1 + (score - SPEED_THRESHOLD) / (SPEED_INTERVAL as int))
    }
}

/// Largest value `spec_hazard_speed` reaches over all scores.
pub const MAX_HAZARD_SPEED: u32 = 107_374_250;

/// The speed staircase never exceeds `MAX_HAZARD_SPEED`.
pub proof fn lemma_hazard_speed_bounded(score: u32)
    ensures
        BASE_SPEED <= spec_hazard_speed(score) <= MAX_HAZARD_SPEED,
{
    if score >= SPEED_THRESHOLD {
        lemma_div_is_ordered(score - SPEED_THRESHOLD, u32::MAX as int, SPEED_INTERVAL as int);
    }
}

/// A fresh hazard at the top of the field, at base speed.
pub fn new_hazard() -> (h: Hazard)
    ensures
        h == (Hazard { x: 0, y: 0, speed: BASE_SPEED }),
{
    Hazard { x: 0, y: 0, speed: BASE_SPEED }
}

/// Recomputes the hazard's speed from the score.
pub fn update_hazard_speed(h: &mut Hazard, score: u32)
    ensures
        final(h).speed == spec_hazard_speed(score),
        final(h).x == old(h).x,
        final(h).y == old(h).y,
{
    proof {
        lemma_hazard_speed_bounded(score);
    }
    if score < SPEED_THRESHOLD {
        h.speed = BASE_SPEED;
    } else {
        let increments: u32 = 1 + (score - SPEED_THRESHOLD) / SPEED_INTERVAL;
        h.speed = BASE_SPEED + SPEED_STEP * increments;
    }
}

/// Vertical travel of the hazard over `dt_ms` milliseconds at `speed`
/// pixels per second, in tenths of a pixel.
pub open spec fn spec_descent(speed: int, dt_ms: int) -> int {
    speed * dt_ms / 100
}

/// Advances the hazard down the field by its speed over `dt_ms`.
pub fn advance_hazard(h: &mut Hazard, dt_ms: u32)
    requires
        0 <= old(h).y <= GROUND_Y,
        old(h).speed <= MAX_HAZARD_SPEED,
    ensures
        final(h).y == old(h).y + spec_descent(old(h).speed as int, dt_ms as int),
        final(h).x == old(h).x,
        final(h).speed == old(h).speed,
        old(h).y <= final(h).y <= GROUND_Y + MAX_HAZARD_SPEED as i64 * (u32::MAX as i64) / 100,
{
    proof {
        let sp = old(h).speed as int;
        let dt = dt_ms as int;
        assert(0 <= sp * dt <= (MAX_HAZARD_SPEED as int) * (u32::MAX as int)) by (nonlinear_arith)
            requires
                0 <= sp <= MAX_HAZARD_SPEED,
                0 <= dt <= u32::MAX,
        ;
        lemma_div_is_ordered(sp * dt, (MAX_HAZARD_SPEED as int) * (u32::MAX as int), 100);
        lemma_div_is_ordered(0, sp * dt, 100);
    }
    let delta: i64 = (h.speed as i64) * (dt_ms as i64) / 100;
    h.y = h.y + delta;
}

/// Whether the hazard's bottom edge has reached the ground line: a breach.
pub open spec fn spec_breached(y: int) -> bool {
    y + HAZARD_H >= GROUND_Y
}

/// Tests for a breach.
pub fn breached(h: &Hazard) -> (r: bool)
    requires
        -5_000_000_000_000_000 <= h.y <= 5_000_000_000_000_000,
    ensures
        r == spec_breached(h.y as int),
{
    h.y + HAZARD_H >= GROUND_Y
}

/// The hazard's speed is monotonic non-decreasing in score.
pub proof fn lemma_hazard_speed_monotonic(s1: u32, s2: u32)
    requires
        s1 <= s2,
    ensures
        spec_hazard_speed(s1) <= spec_hazard_speed(s2),
{
    if s1 >= SPEED_THRESHOLD {
        lemma_div_is_ordered(
            s1 - SPEED_THRESHOLD,
            s2 - SPEED_THRESHOLD,
            SPEED_INTERVAL as int,
        );
    }
}

/// The hazard's speed is piecewise constant: scores in the same interval
/// above the threshold share a speed, and scores below the threshold all
/// sit at the base speed.
pub proof fn lemma_hazard_speed_piecewise_constant(s1: u32, s2: u32)
    requires
        s1 < SPEED_THRESHOLD && s2 < SPEED_THRESHOLD || s1 >= SPEED_THRESHOLD && s2
            >= SPEED_THRESHOLD && (s1 - SPEED_THRESHOLD) / (SPEED_INTERVAL as int) == (s2
            - SPEED_THRESHOLD) / (SPEED_INTERVAL as int),
    ensures
        spec_hazard_speed(s1) == spec_hazard_speed(s2),
{
}

/// Each further full score interval above the threshold raises the speed
/// by exactly one step.
pub proof fn lemma_hazard_speed_step(s: u32)
    requires
        s >= SPEED_THRESHOLD,
        s + SPEED_INTERVAL <= u32::MAX,
    ensures
        spec_hazard_speed((s + SPEED_INTERVAL) as u32) == spec_hazard_speed(s) + SPEED_STEP,
{
    let d = SPEED_INTERVAL as int;
    assert((s - SPEED_THRESHOLD + d) / d == (s - SPEED_THRESHOLD) / d + 1) by {
        vstd::arithmetic::div_mod::lemma_div_plus_one(s - SPEED_THRESHOLD, d);
    }
}

} // verus!
