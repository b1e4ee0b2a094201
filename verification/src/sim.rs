//! The phase state machine and the per-tick simulation step.
//!
//! All run-wide mutable state (phase, score, lives, mode, player, hazard,
//! current question) is carried in one `Sim` value.  Each externally driven
//! frame calls `tick` once with the sampled input signals and the elapsed
//! time; `tick`'s contract pins the whole next state through `spec_tick`,
//! up to the content of a freshly generated question.

use vstd::prelude::*;
use crate::HAZARD_WALL;
use crate::INITIAL_LIVES;
use crate::PAUSE_MS;
use crate::PLAYER_W;
use crate::REWARD;
use crate::collision::COORD_BOUND;
use crate::collision::check_collision;
use crate::collision::spec_first_hit;
use crate::hazard::Hazard;
use crate::hazard::MAX_HAZARD_SPEED;
use crate::hazard::advance_hazard;
use crate::hazard::breached;
use crate::hazard::lemma_hazard_speed_bounded;
use crate::hazard::new_hazard;
use crate::hazard::spec_breached;
use crate::hazard::spec_descent;
use crate::hazard::spec_hazard_speed;
use crate::hazard::update_hazard_speed;
use crate::player::Locomotion;
use crate::player::Player;
use crate::player::field_w_ok;
use crate::player::lemma_fail_entry;
use crate::player::new_player;
use crate::player::player_wf;
use crate::player::spec_spawn_player;
use crate::player::spec_step_player;
use crate::player::update_player;
use crate::question::Op;
use crate::question::Question;
use crate::question::generate;
use crate::question::lemma_choice_x_bounds;
use crate::question::question_ok;
use crate::question::question_wf;

verus! {

/// The four selectable difficulty levels; each presets the starting score.
#[derive(Clone, Copy, PartialEq, Eq, Structural, Debug)]
pub enum Difficulty {
    Easy,
    Medium,
    Hard,
    VeryHard,
}

/// Starting score preset by a difficulty level.
pub open spec fn spec_preset_score(d: Difficulty) -> int {
    match d {
        Difficulty::Easy => 0,
        Difficulty::Medium => 500,
        Difficulty::Hard => 1000,
        Difficulty::VeryHard => 1500,
    }
}

/// Computes the starting score for a difficulty level.
pub fn preset_score(d: Difficulty) -> (s: u32)
    ensures
        s == spec_preset_score(d),
{
    match d {
        Difficulty::Easy => 0,
        Difficulty::Medium => 500,
        Difficulty::Hard => 1000,
        Difficulty::VeryHard => 1500,
    }
}

/// Lifecycle stage of an episode.  `PostAnswerPause` carries the countdown
/// that remains before play resumes, in milliseconds.
#[derive(Clone, Copy, PartialEq, Eq, Structural, Debug)]
pub enum Phase {
    MainMenu,
    Playing,
    PostAnswerPause { remaining_ms: u32 },
    GameOver,
}

/// The input signals sampled once per tick.  The held signals report keys
/// currently down; the pressed signals are edge-triggered and must be
/// reported for one tick only.
#[derive(Clone, Copy, Debug)]
pub struct Input {
    pub left_held: bool,
    pub right_held: bool,
    pub ascend_held: bool,
    pub difficulty_pressed: Option<Difficulty>,
    pub mode_pressed: Option<Op>,
    pub restart_pressed: bool,
}

/// An input with no signal active.
pub fn idle_input() -> (inp: Input)
    ensures
        !inp.left_held && !inp.right_held && !inp.ascend_held && inp.difficulty_pressed is None
            && inp.mode_pressed is None && !inp.restart_pressed,
{
    Input {
        left_held: false,
        right_held: false,
        ascend_held: false,
        difficulty_pressed: None,
        mode_pressed: None,
        restart_pressed: false,
    }
}

/// The whole simulation state threaded through the tick function.
pub struct Sim {
    pub phase: Phase,
    pub score: u32,
    pub lives: i32,
    pub mode: Op,
    pub player: Player,
    pub hazard: Hazard,
    pub question: Question,
    pub field_w: i64,
}

/// Invariant of the simulation state between ticks.
pub open spec fn sim_wf(s: Sim) -> bool {
    &&& field_w_ok(s.field_w as int)
    &&& player_wf(s.player, s.field_w as int)
    &&& 0 <= s.lives <= INITIAL_LIVES
    &&& s.hazard.speed <= MAX_HAZARD_SPEED
    &&& match s.phase {
        Phase::Playing | Phase::PostAnswerPause { .. } => {
            &&& s.lives >= 1
            &&& 0 <= s.hazard.y
            &&& !spec_breached(s.hazard.y as int)
            &&& question_wf(s.question, s.field_w as int)
        },
        _ => true,
    }
}

/// The operation mode after the menu's mode-select input is applied.
pub open spec fn spec_menu_mode(pre_mode: Op, input: Input) -> Op {
    match input.mode_pressed {
        Some(m) => m,
        None => pre_mode,
    }
}

/// Score, lives, mode, field width and question all unchanged.
pub open spec fn spec_same_run(pre: Sim, post: Sim) -> bool {
    &&& post.score == pre.score
    &&& post.lives == pre.lives
    &&& post.mode == pre.mode
    &&& post.field_w == pre.field_w
    &&& post.question == pre.question
}

/// Tick relation in the main menu: a mode-select input updates the
/// persisted mode; a difficulty-select input additionally starts an
/// episode, presetting score and lives, resetting the player and hazard
/// poses and generating the first question; everything else is ignored.
pub open spec fn spec_menu_tick(pre: Sim, input: Input, post: Sim) -> bool {
    let mode = spec_menu_mode(pre.mode, input);
    match input.difficulty_pressed {
        Some(d) => {
            &&& post.phase == Phase::Playing
            &&& post.score == spec_preset_score(d)
            &&& post.lives == INITIAL_LIVES
            &&& post.mode == mode
            &&& post.player == spec_spawn_player()
            &&& post.hazard.x == pre.hazard.x
            &&& post.hazard.y == 0
            &&& post.hazard.speed == pre.hazard.speed
            &&& question_ok(post.question, post.score, mode, post.field_w as int)
            &&& post.field_w == pre.field_w
        },
        None => {
            &&& post.phase == Phase::MainMenu
            &&& post.mode == mode
            &&& post.score == pre.score
            &&& post.lives == pre.lives
            &&& post.player == pre.player
            &&& post.hazard == pre.hazard
            &&& post.question == pre.question
            &&& post.field_w == pre.field_w
        },
    }
}

/// Whether a tick of `dt_ms` from `pre` lets the hazard reach the ground.
pub open spec fn spec_breach_now(pre: Sim, dt_ms: u32) -> bool {
    spec_breached(pre.hazard.y + spec_descent(spec_hazard_speed(pre.score), dt_ms as int))
}

/// The player pose after this tick's kinematics.
pub open spec fn spec_ticked_player(pre: Sim, input: Input) -> Player {
    spec_step_player(pre.player, input.left_held, input.right_held, input.ascend_held,
        pre.field_w as int)
}

/// Whether this tick's moved player overlaps a choice, and that first
/// overlapped choice is the correct one.
pub open spec fn spec_correct_hit(pre: Sim, input: Input) -> bool {
    let moved = spec_ticked_player(pre, input);
    &&& moved.loco == Locomotion::Normal
    &&& match spec_first_hit(moved, pre.question.choices@) {
        Some(i) => pre.question.choices@[i].is_correct,
        None => false,
    }
}

/// Whether this tick's moved player overlaps a choice, and that first
/// overlapped choice is a distractor.
pub open spec fn spec_wrong_hit(pre: Sim, input: Input) -> bool {
    let moved = spec_ticked_player(pre, input);
    &&& moved.loco == Locomotion::Normal
    &&& match spec_first_hit(moved, pre.question.choices@) {
        Some(i) => !pre.question.choices@[i].is_correct,
        None => false,
    }
}

/// Tick relation while playing.  The player advances, the hazard's speed
/// is derived from the score and its position advances by it.  A breach
/// costs a life: on the last life the phase falls to `GameOver`, otherwise
/// player, hazard and question are reset in place.  Without a breach the
/// collision outcome decides: the correct choice awards the fixed reward
/// and starts the pause; a distractor costs a life — `GameOver` on the
/// last, otherwise the player drops into `Failing`; no overlap changes
/// nothing further.
pub open spec fn spec_playing_tick(pre: Sim, input: Input, dt_ms: u32, post: Sim) -> bool {
    let moved = spec_ticked_player(pre, input);
    let speed = spec_hazard_speed(pre.score);
    let hy = pre.hazard.y + spec_descent(speed, dt_ms as int);
    &&& post.field_w == pre.field_w
    &&& post.mode == pre.mode
    &&& post.hazard.x == pre.hazard.x
    &&& post.hazard.speed == speed
    &&& if spec_breached(hy) {
        &&& post.lives == pre.lives - 1
        &&& post.score == pre.score
        &&& if pre.lives <= 1 {
            &&& post.phase == Phase::GameOver
            &&& post.player == moved
            &&& post.hazard.y == hy
            &&& post.question == pre.question
        } else {
            &&& post.phase == Phase::Playing
            &&& post.player == spec_spawn_player()
            &&& post.hazard.y == 0
            &&& question_ok(post.question, pre.score, pre.mode, pre.field_w as int)
        }
    } else {
        &&& post.hazard.y == hy
        &&& post.question == pre.question
        &&& if spec_correct_hit(pre, input) {
            &&& post.phase == Phase::PostAnswerPause { remaining_ms: PAUSE_MS }
            &&& post.score == pre.score + REWARD
            &&& post.lives == pre.lives
            &&& post.player == moved
        } else if spec_wrong_hit(pre, input) {
            &&& post.lives == pre.lives - 1
            &&& post.score == pre.score
            &&& if pre.lives <= 1 {
                &&& post.phase == Phase::GameOver
                &&& post.player == moved
            } else {
                &&& post.phase == Phase::Playing
                &&& post.player == (Player { loco: Locomotion::Failing, ..moved })
            }
        } else {
            &&& post.phase == Phase::Playing
            &&& post.score == pre.score
            &&& post.lives == pre.lives
            &&& post.player == moved
        }
    }
}

/// Tick relation in the post-answer pause: the countdown shrinks by the
/// elapsed time; when it runs out, player and hazard poses reset, a new
/// question is generated and play resumes.
pub open spec fn spec_pause_tick(pre: Sim, remaining_ms: u32, dt_ms: u32, post: Sim) -> bool {
    &&& post.score == pre.score
    &&& post.lives == pre.lives
    &&& post.mode == pre.mode
    &&& post.field_w == pre.field_w
    &&& post.hazard.x == pre.hazard.x
    &&& post.hazard.speed == pre.hazard.speed
    &&& if dt_ms >= remaining_ms {
        &&& post.phase == Phase::Playing
        &&& post.player == spec_spawn_player()
        &&& post.hazard.y == 0
        &&& question_ok(post.question, pre.score, pre.mode, pre.field_w as int)
    } else {
        &&& post.phase == Phase::PostAnswerPause { remaining_ms: (remaining_ms - dt_ms) as u32 }
        &&& post.player == pre.player
        &&& post.hazard.y == pre.hazard.y
        &&& post.question == pre.question
    }
}

/// Tick relation on the game-over screen: only the restart input does
/// anything, returning to the menu with score and lives kept for display.
pub open spec fn spec_gameover_tick(pre: Sim, input: Input, post: Sim) -> bool {
    &&& post.phase == (if input.restart_pressed {
        Phase::MainMenu
    } else {
        Phase::GameOver
    })
    &&& spec_same_run(pre, post)
    &&& post.player == pre.player
    &&& post.hazard == pre.hazard
}

/// The full tick relation, dispatched on the pre-state's phase.
pub open spec fn spec_tick(pre: Sim, input: Input, dt_ms: u32, post: Sim) -> bool {
    match pre.phase {
        Phase::MainMenu => spec_menu_tick(pre, input, post),
        Phase::Playing => spec_playing_tick(pre, input, dt_ms, post),
        Phase::PostAnswerPause { remaining_ms } => spec_pause_tick(pre, remaining_ms, dt_ms, post),
        Phase::GameOver => spec_gameover_tick(pre, input, post),
    }
}

impl Sim {
    /// A fresh simulation in the main menu, with no question yet.
    pub fn new(field_w: i64) -> (s: Sim)
        requires
            field_w_ok(field_w as int),
        ensures
            sim_wf(s),
            s.phase == Phase::MainMenu,
            s.score == 0,
            s.lives == INITIAL_LIVES,
            s.mode == Op::Addition,
            s.player == spec_spawn_player(),
            s.hazard == (Hazard { x: 0, y: 0, speed: crate::BASE_SPEED }),
            s.question.prompt@.len() == 0,
            s.question.choices@.len() == 0,
            s.field_w == field_w,
    {
        Sim {
            phase: Phase::MainMenu,
            score: 0,
            lives: INITIAL_LIVES,
            mode: Op::Addition,
            player: new_player(),
            hazard: new_hazard(),
            question: Question {
                prompt: String::new(),
                op: Op::Addition,
                left: 1,
                right: 1,
                answer: 2,
                choices: Vec::new(),
            },
            field_w,
        }
    }

    /// One simulation tick: consumes the sampled input signals and the
    /// elapsed milliseconds, and steps the state machine.
    pub fn tick(&mut self, input: Input, dt_ms: u32)
        requires
            sim_wf(*old(self)),
            old(self).score + REWARD <= u32::MAX,
        ensures
            sim_wf(*final(self)),
            spec_tick(*old(self), input, dt_ms, *final(self)),
    {
        match self.phase {
            Phase::MainMenu => {
                match input.mode_pressed {
                    Some(m) => {
                        self.mode = m;
                    },
                    None => {},
                }
                match input.difficulty_pressed {
                    Some(d) => {
                        self.score = preset_score(d);
                        self.lives = INITIAL_LIVES;
                        self.player = new_player();
                        self.hazard.y = 0;
                        self.question = generate(self.score, self.mode, self.field_w);
                        self.phase = Phase::Playing;
                    },
                    None => {},
                }
            },
            Phase::Playing => {
                update_player(
                    &mut self.player,
                    input.left_held,
                    input.right_held,
                    input.ascend_held,
                    self.field_w,
                );
                proof {
                    lemma_hazard_speed_bounded(self.score);
                }
                update_hazard_speed(&mut self.hazard, self.score);
                advance_hazard(&mut self.hazard, dt_ms);
                if breached(&self.hazard) {
                    self.lives = self.lives - 1;
                    if self.lives <= 0 {
                        self.phase = Phase::GameOver;
                    } else {
                        self.player = new_player();
                        self.hazard.y = 0;
                        self.question = generate(self.score, self.mode, self.field_w);
                    }
                } else {
                    match self.player.loco {
                        Locomotion::Normal => {
                            proof {
                                assert forall|i: int|
                                    0 <= i < self.question.choices@.len() implies -COORD_BOUND <= (
                                #[trigger] self.question.choices@[i]).x <= COORD_BOUND
                                    && -COORD_BOUND <= self.question.choices@[i].y
                                    <= COORD_BOUND by {
                                    lemma_choice_x_bounds(self.field_w as int, i);
                                }
                            }
                            let hit = check_collision(&self.player, &self.question.choices);
                            match hit {
                                Some(i) => {
                                    if self.question.choices[i].is_correct {
                                        self.score = self.score + REWARD;
                                        self.phase = Phase::PostAnswerPause {
                                            remaining_ms: PAUSE_MS,
                                        };
                                    } else {
                                        self.lives = self.lives - 1;
                                        if self.lives <= 0 {
                                            self.phase = Phase::GameOver;
                                        } else {
                                            proof {
                                                lemma_fail_entry(
                                                    self.player.y as int,
                                                    self.player.vy as int,
                                                );
                                            }
                                            self.player.loco = Locomotion::Failing;
                                        }
                                    }
                                },
                                None => {},
                            }
                        },
                        Locomotion::Failing => {},
                    }
                }
            },
            Phase::PostAnswerPause { remaining_ms } => {
                if dt_ms >= remaining_ms {
                    self.player = new_player();
                    self.hazard.y = 0;
                    self.question = generate(self.score, self.mode, self.field_w);
                    self.phase = Phase::Playing;
                } else {
                    self.phase = Phase::PostAnswerPause { remaining_ms: remaining_ms - dt_ms };
                }
            },
            Phase::GameOver => {
                if input.restart_pressed {
                    self.phase = Phase::MainMenu;
                }
            },
        }
    }
}

/// Losing the last life — by a hazard breach or by touching a distractor —
/// makes the very next resolved tick's phase `GameOver`.
pub proof fn lemma_last_life_lost_is_game_over(pre: Sim, input: Input, dt_ms: u32, post: Sim)
    requires
        sim_wf(pre),
        spec_tick(pre, input, dt_ms, post),
        pre.phase == Phase::Playing,
        pre.lives == 1,
        spec_breach_now(pre, dt_ms) || spec_wrong_hit(pre, input),
    ensures
        post.phase == Phase::GameOver,
        post.lives == 0,
{
}

/// A correct-answer collision with lives remaining awards exactly the
/// fixed reward and starts the fixed-length pause; once at least that much
/// time has elapsed, the next tick resumes play with reset player and
/// hazard poses and a freshly generated question, score kept.
pub proof fn lemma_correct_answer_rewards(
    pre: Sim,
    input1: Input,
    dt1: u32,
    mid: Sim,
    input2: Input,
    dt2: u32,
    post: Sim,
)
    requires
        sim_wf(pre),
        spec_tick(pre, input1, dt1, mid),
        pre.phase == Phase::Playing,
        !spec_breach_now(pre, dt1),
        spec_correct_hit(pre, input1),
        spec_tick(mid, input2, dt2, post),
        dt2 >= PAUSE_MS,
    ensures
        mid.phase == (Phase::PostAnswerPause { remaining_ms: PAUSE_MS }),
        mid.score == pre.score + REWARD,
        mid.lives == pre.lives,
        post.phase == Phase::Playing,
        post.score == pre.score + REWARD,
        post.lives == pre.lives,
        post.player == spec_spawn_player(),
        post.hazard.y == 0,
        question_ok(post.question, post.score, post.mode, post.field_w as int),
{
}

/// Lives never go negative: the game ends the tick they reach zero.
pub proof fn lemma_lives_never_negative(pre: Sim, input: Input, dt_ms: u32, post: Sim)
    requires
        sim_wf(pre),
        spec_tick(pre, input, dt_ms, post),
    ensures
        post.lives >= 0,
{
}

/// Within an episode the score changes only by the fixed reward, and only
/// on a correct-answer collision: every other tick outside the menu keeps
/// it unchanged.
pub proof fn lemma_score_changes_only_by_reward(pre: Sim, input: Input, dt_ms: u32, post: Sim)
    requires
        sim_wf(pre),
        spec_tick(pre, input, dt_ms, post),
        pre.phase != Phase::MainMenu,
    ensures
        post.score == pre.score || (pre.phase == Phase::Playing && !spec_breach_now(pre, dt_ms)
            && spec_correct_hit(pre, input) && post.score == pre.score + REWARD),
{
}

/// The player's horizontal position never leaves
/// `[HAZARD_WALL, field width - PLAYER_W]`: it holds after every tick,
/// whatever the inputs were, so it holds after any sequence of ticks from
/// a well-formed state.
pub proof fn lemma_player_never_leaves_field(pre: Sim, input: Input, dt_ms: u32, post: Sim)
    requires
        sim_wf(pre),
        spec_tick(pre, input, dt_ms, post),
    ensures
        HAZARD_WALL <= post.player.x,
        post.player.x + PLAYER_W <= post.field_w,
{
}

} // verus!
