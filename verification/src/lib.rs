//! Frame-stepped arcade simulation for a mental-arithmetic game.
//!
//! A player entity moves inside a play field and must touch the correct
//! answer among four displayed choices before a descending hazard reaches
//! the ground.  The crate holds the verified core: the phase state machine,
//! player and hazard kinematics, collision-triggered scoring and life loss,
//! and the adaptive question generator.  Rendering, window handling and raw
//! keyboard polling are external collaborators and stay outside.
//!
//! All geometry is carried in tenths of a pixel as integers, and elapsed
//! time in whole milliseconds, so that every update is exact arithmetic.

use vstd::prelude::*;

pub mod collision;
pub mod counting;
pub mod hazard;
pub mod numfmt;
pub mod player;
pub mod question;
pub mod rng;
pub mod sim;

verus! {

// Geometry, in tenths of a pixel.
/// Horizontal speed applied while a move input is held.
pub const MOVE_SPEED: i64 = 30;
/// Upward velocity gained per tick while the ascend input is held.
pub const BOOST: i64 = 3;
/// Downward velocity gained every tick.
pub const GRAVITY: i64 = 2;
/// Vertical coordinate of the ground line.
pub const GROUND_Y: i64 = 6000;
/// Left clamp for the player: the hazard-wall offset.
pub const HAZARD_WALL: i64 = 700;
/// Player hit-box width.
pub const PLAYER_W: i64 = 600;
/// Player hit-box height.
pub const PLAYER_H: i64 = 600;
/// Vertical spawn position of the player.
pub const PLAYER_SPAWN_Y: i64 = 5500;
/// Hazard box width.
pub const HAZARD_W: i64 = 2000;
/// Hazard box height.
pub const HAZARD_H: i64 = 2000;
/// Answer-choice hit-box width.
pub const CHOICE_W: i64 = 1000;
/// Answer-choice hit-box height.
pub const CHOICE_H: i64 = 800;
/// Vertical position of every answer-choice box.
pub const CHOICE_Y: i64 = 2000;
/// Horizontal margin kept free on each side of the answer-choice row.
pub const LAYOUT_MARGIN: i64 = 1000;
/// Smallest play-field width the layout supports.
pub const MIN_FIELD_W: i64 = 6000;
/// Largest play-field width the arithmetic is proved for.
pub const MAX_FIELD_W: i64 = 100_000_000;

// Pace of the hazard, in pixels per second.
/// Hazard descent speed below the score threshold.
pub const BASE_SPEED: u32 = 50;
/// Speed added per completed score interval above the threshold.
pub const SPEED_STEP: u32 = 25;
/// Score at which the hazard starts speeding up.
pub const SPEED_THRESHOLD: u32 = 500;
/// Score interval per further speed step.
pub const SPEED_INTERVAL: u32 = 1000;

// Question difficulty ramp.
/// Score interval after which operand bounds grow.
pub const RAMP_INTERVAL: u32 = 500;
/// Starting operand bound for addition.
pub const ADD_BASE: u32 = 10;
/// Growth of the addition bound per ramp interval.
pub const ADD_STEP: u32 = 10;
/// Starting operand bound for multiplication and division.
pub const MUL_BASE: u32 = 5;
/// Growth of the multiplication/division bound per ramp interval.
pub const MUL_STEP: u32 = 5;
/// Ceiling of the multiplication/division bound.
pub const MUL_CAP: u32 = 15;

// Run bookkeeping.
/// Number of answer choices per question.
pub const NUM_CHOICES: usize = 4;
/// Score awarded for touching the correct answer.
pub const REWARD: u32 = 100;
/// Lives at the start of an episode.
pub const INITIAL_LIVES: i32 = 10;
/// Duration of the pause after a correct answer, in milliseconds.
pub const PAUSE_MS: u32 = 500;

} // verus!
