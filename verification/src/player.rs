//! Player kinematics: semi-implicit integration of the player entity.
//!
//! Each tick sets the horizontal velocity from the held move inputs, applies
//! ascend boost and then gravity to the vertical velocity, integrates the
//! position, and clamps it to the play field.  In the `Failing` locomotion
//! state (entered on a wrong answer) the horizontal velocity is forced to
//! zero and the player falls until the ground line, which is the sole
//! recovery path back to `Normal`.

use vstd::prelude::*;
use crate::BOOST;
use crate::GRAVITY;
use crate::GROUND_Y;
use crate::HAZARD_WALL;
use crate::MAX_FIELD_W;
use crate::MIN_FIELD_W;
use crate::MOVE_SPEED;
use crate::PLAYER_SPAWN_Y;
use crate::PLAYER_W;

verus! {

/// Movement mode of the player, independent of the game phase.
#[derive(Clone, Copy, PartialEq, Eq, Structural, Debug)]
pub enum Locomotion {
    Normal,
    Failing,
}

/// The player-controlled entity.  Positions and velocities are in tenths
/// of a pixel; the hit box is `PLAYER_W` by `PLAYER_H`.
#[derive(Clone, Copy, PartialEq, Eq, Structural, Debug)]
pub struct Player {
    pub x: i64,
    pub y: i64,
    pub vx: i64,
    pub vy: i64,
    pub loco: Locomotion,
}

/// While failing, the vertical state keeps this quantity above
/// `FAIL_ENERGY_FLOOR`: gravity raises it by a constant every tick, and it
/// bounds both how far above the field a rising player can coast and how
/// fast it can be moving.
pub open spec fn fail_energy(y: int, vy: int) -> int {
    4 * y - vy * vy + 2 * vy
}

/// Lowest value `fail_energy` can hold when the `Failing` state is entered
/// from any well-formed `Normal` state.
pub const FAIL_ENERGY_FLOOR: i64 = -37_000_000;

/// Well-formedness of a player within a play field of width `field_w`.
pub open spec fn player_wf(p: Player, field_w: int) -> bool {
    &&& HAZARD_WALL <= p.x
    &&& p.x + PLAYER_W <= field_w
    &&& (p.vx == -MOVE_SPEED || p.vx == 0 || p.vx == MOVE_SPEED)
    &&& match p.loco {
        Locomotion::Normal => 0 <= p.y <= GROUND_Y && -GROUND_Y <= p.vy <= GROUND_Y,
        Locomotion::Failing => p.y <= GROUND_Y && fail_energy(p.y as int, p.vy as int)
            >= FAIL_ENERGY_FLOOR,
    }
}

/// A play-field width the simulation is proved for: wide enough for the
/// answer layout and the player clamp, small enough for exact arithmetic.
pub open spec fn field_w_ok(field_w: int) -> bool {
    MIN_FIELD_W <= field_w <= MAX_FIELD_W
}

/// The player at its spawn pose: against the hazard wall, on the ground,
/// at rest, in `Normal` locomotion.
pub open spec fn spec_spawn_player() -> Player {
    Player {
        x: HAZARD_WALL,
        y: PLAYER_SPAWN_Y,
        vx: 0,
        vy: 0,
        loco: Locomotion::Normal,
    }
}

/// Creates a fresh player at the spawn pose.
pub fn new_player() -> (p: Player)
    ensures
        p == spec_spawn_player(),
{
    Player { x: HAZARD_WALL, y: PLAYER_SPAWN_Y, vx: 0, vy: 0, loco: Locomotion::Normal }
}

/// One tick of player kinematics, as a mathematical function of the held
/// inputs.  Mirrors the update order: velocity from inputs, boost, then
/// gravity, then integration, then the clamps.
pub open spec fn spec_step_player(
    p: Player,
    left: bool,
    right: bool,
    up: bool,
    field_w: int,
) -> Player {
    match p.loco {
        Locomotion::Normal => {
            let vx = if left {
                -MOVE_SPEED as int
            } else if right {
                MOVE_SPEED as int
            } else {
                0
            };
            let vy = if up {
                p.vy - BOOST + GRAVITY
            } else {
                p.vy + GRAVITY
            };
            let x0 = p.x + vx;
            let x1 = if x0 < HAZARD_WALL {
                HAZARD_WALL as int
            } else {
                x0
            };
            let x2 = if x1 + PLAYER_W > field_w {
                field_w - PLAYER_W
            } else {
                x1
            };
            let y0 = p.y + vy;
            if y0 < 0 {
                Player { x: x2 as i64, y: 0, vx: vx as i64, vy: 0, loco: Locomotion::Normal }
            } else if y0 > GROUND_Y {
                Player {
                    x: x2 as i64,
                    y: GROUND_Y,
                    vx: vx as i64,
                    vy: 0,
                    loco: Locomotion::Normal,
                }
            } else {
                Player {
                    x: x2 as i64,
                    y: y0 as i64,
                    vx: vx as i64,
                    vy: vy as i64,
                    loco: Locomotion::Normal,
                }
            }
        },
        Locomotion::Failing => {
            let vy = p.vy + GRAVITY;
            let y0 = p.y + vy;
            if y0 > GROUND_Y {
                Player { x: p.x, y: GROUND_Y, vx: 0, vy: 0, loco: Locomotion::Normal }
            } else {
                Player { x: p.x, y: y0 as i64, vx: 0, vy: vy as i64, loco: Locomotion::Failing }
            }
        },
    }
}

/// Bounds on the failing state that follow from the energy floor: the
/// player cannot coast arbitrarily far above the field nor move
/// arbitrarily fast.
pub proof fn lemma_fail_bounds(y: int, vy: int)
    requires
        y <= GROUND_Y,
        fail_energy(y, vy) >= FAIL_ENERGY_FLOOR,
    ensures
        -7000 <= vy <= 7000,
        -10_000_000 <= y,
{
    assert(-7000 <= vy <= 7000) by (nonlinear_arith)
        requires
            y <= 6000,
            4 * y - vy * vy + 2 * vy >= -37_000_000,
    ;
    assert(-10_000_000 <= y) by (nonlinear_arith)
        requires
            y <= 6000,
            4 * y - vy * vy + 2 * vy >= -37_000_000,
    ;
}

/// Entering `Failing` from any well-formed `Normal` state satisfies the
/// energy floor.
pub proof fn lemma_fail_entry(y: int, vy: int)
    requires
        0 <= y <= GROUND_Y,
        -GROUND_Y <= vy <= GROUND_Y,
    ensures
        fail_energy(y, vy) >= FAIL_ENERGY_FLOOR,
{
    assert(4 * y - vy * vy + 2 * vy >= -37_000_000) by (nonlinear_arith)
        requires
            0 <= y <= 6000,
            -6000 <= vy <= 6000,
    ;
}

/// One gravity step of an unclamped fall raises the energy by a constant.
proof fn lemma_fail_step(y: int, vy: int)
    ensures
        fail_energy(y + (vy + GRAVITY), vy + GRAVITY) == fail_energy(y, vy) + 8,
{
    assert(4 * (y + (vy + 2)) - (vy + 2) * (vy + 2) + 2 * (vy + 2) == 4 * y - vy * vy + 2 * vy
        + 8) by (nonlinear_arith);
}

/// Advances the player by one tick.
///
/// The final position always lies inside the play field horizontally:
/// `HAZARD_WALL <= x` and `x + PLAYER_W <= field_w`, whatever the inputs
/// were, so the player never crosses the hazard wall nor the right edge.
pub fn update_player(p: &mut Player, left: bool, right: bool, up: bool, field_w: i64)
    requires
        player_wf(*old(p), field_w as int),
        field_w_ok(field_w as int),
    ensures
        *final(p) == spec_step_player(*old(p), left, right, up, field_w as int),
        player_wf(*final(p), field_w as int),
        HAZARD_WALL <= final(p).x && final(p).x + PLAYER_W <= field_w,
{
    match p.loco {
        Locomotion::Normal => {
            if left {
                p.vx = -MOVE_SPEED;
            } else if right {
                p.vx = MOVE_SPEED;
            } else {
                p.vx = 0;
            }
            if up {
                p.vy = p.vy - BOOST;
            }
            p.vy = p.vy + GRAVITY;
            p.x = p.x + p.vx;
            p.y = p.y + p.vy;
            if p.x < HAZARD_WALL {
                p.x = HAZARD_WALL;
            }
            if p.x + PLAYER_W > field_w {
                p.x = field_w - PLAYER_W;
            }
            if p.y < 0 {
                p.y = 0;
                p.vy = 0;
            }
            if p.y > GROUND_Y {
                p.y = GROUND_Y;
                p.vy = 0;
            }
        },
        Locomotion::Failing => {
            proof {
                lemma_fail_bounds(old(p).y as int, old(p).vy as int);
                lemma_fail_step(old(p).y as int, old(p).vy as int);
            }
            p.vx = 0;
            p.vy = p.vy + GRAVITY;
            p.x = p.x + p.vx;
            p.y = p.y + p.vy;
            if p.y > GROUND_Y {
                p.y = GROUND_Y;
                p.vy = 0;
                p.loco = Locomotion::Normal;
            }
        },
    }
}

/// The player's facing direction, derived from the horizontal velocity
/// sign: facing right unless currently moving right.
pub fn facing_right(p: &Player) -> (r: bool)
    ensures
        r == (p.vx <= 0),
{
    p.vx <= 0
}

} // verus!
