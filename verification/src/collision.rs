//! Collision resolution: axis-aligned overlap between the player's hit box
//! and the answer-choice boxes.
//!
//! The choice boxes are laid out without overlap, so testing them in list
//! order and stopping at the first hit needs no further tie-break.

use vstd::prelude::*;
use crate::CHOICE_H;
use crate::CHOICE_W;
use crate::PLAYER_H;
use crate::PLAYER_W;
use crate::player::Player;
use crate::question::Choice;

verus! {

/// Bound within which all box coordinates handed to the overlap test live.
pub const COORD_BOUND: i64 = 1_000_000_000;

/// Strict axis-aligned box overlap: touching edges do not count.
pub open spec fn spec_overlaps(
    ax: int,
    ay: int,
    aw: int,
    ah: int,
    bx: int,
    by: int,
    bw: int,
    bh: int,
) -> bool {
    ax < bx + bw && ax + aw > bx && ay < by + bh && ay + ah > by
}

/// Tests two boxes for overlap.
pub fn overlaps(ax: i64, ay: i64, aw: i64, ah: i64, bx: i64, by: i64, bw: i64, bh: i64) -> (r:
    bool)
    requires
        -COORD_BOUND <= ax <= COORD_BOUND,
        -COORD_BOUND <= ay <= COORD_BOUND,
        0 <= aw <= COORD_BOUND,
        0 <= ah <= COORD_BOUND,
        -COORD_BOUND <= bx <= COORD_BOUND,
        -COORD_BOUND <= by <= COORD_BOUND,
        0 <= bw <= COORD_BOUND,
        0 <= bh <= COORD_BOUND,
    ensures
        r == spec_overlaps(ax as int, ay as int, aw as int, ah as int, bx as int, by as int,
            bw as int, bh as int),
{
    ax < bx + bw && ax + aw > bx && ay < by + bh && ay + ah > by
}

/// Whether the player's hit box overlaps the hit box of choice `c`.
pub open spec fn spec_player_hits(p: Player, c: Choice) -> bool {
    spec_overlaps(p.x as int, p.y as int, PLAYER_W as int, PLAYER_H as int, c.x as int, c.y as int,
        CHOICE_W as int, CHOICE_H as int)
}

/// Index of the first choice from `from` onward that the player overlaps.
pub open spec fn spec_first_hit_from(p: Player, cs: Seq<Choice>, from: int) -> Option<int>
    decreases cs.len() - from,
{
    if from < 0 || from >= cs.len() {
        None
    } else if spec_player_hits(p, cs[from]) {
        Some(from)
    } else {
        spec_first_hit_from(p, cs, from + 1)
    }
}

/// Index of the first choice the player overlaps, in list order.
pub open spec fn spec_first_hit(p: Player, cs: Seq<Choice>) -> Option<int> {
    spec_first_hit_from(p, cs, 0)
}

/// Finds the first choice the player's hit box overlaps, in list order.
pub fn check_collision(p: &Player, cs: &Vec<Choice>) -> (r: Option<usize>)
    requires
        -COORD_BOUND <= p.x <= COORD_BOUND,
        -COORD_BOUND <= p.y <= COORD_BOUND,
        forall|i: int|
            0 <= i < cs@.len() ==> -COORD_BOUND <= (#[trigger] cs@[i]).x <= COORD_BOUND
                && -COORD_BOUND <= cs@[i].y <= COORD_BOUND,
    ensures
        match r {
            Some(i) => i < cs@.len() && spec_first_hit(*p, cs@) == Some(i as int),
            None => spec_first_hit(*p, cs@) is None,
        },
{
    let mut i: usize = 0;
    while i < cs.len()
        invariant
            i <= cs@.len(),
            spec_first_hit(*p, cs@) == spec_first_hit_from(*p, cs@, i as int),
            -COORD_BOUND <= p.x <= COORD_BOUND,
            -COORD_BOUND <= p.y <= COORD_BOUND,
            forall|j: int|
                0 <= j < cs@.len() ==> -COORD_BOUND <= (#[trigger] cs@[j]).x <= COORD_BOUND
                    && -COORD_BOUND <= cs@[j].y <= COORD_BOUND,
        decreases cs@.len() - i,
    {
        let c = &cs[i];
        if overlaps(p.x, p.y, PLAYER_W, PLAYER_H, c.x, c.y, CHOICE_W, CHOICE_H) {
            return Some(i);
        }
        i = i + 1;
    }
    None
}

} // verus!
