//! Scenario tests for the phase state machine and per-tick simulation.

use mathnaut::hazard::Hazard;
use mathnaut::player::{Locomotion, Player};
use mathnaut::question::{Choice, Op, Question};
use mathnaut::sim::{idle_input, Difficulty, Input, Phase, Sim};

const FIELD_W: i64 = 10240;

fn mk_choice(x: i64, value: u32, is_correct: bool) -> Choice {
    Choice { x, y: 2000, text: value.to_string(), value, is_correct }
}

/// A handmade addition question laid out for `FIELD_W`, correct answer 7
/// in the first slot.
fn std_question() -> Question {
    Question {
        prompt: "3 + 4 = ?".to_string(),
        op: Op::Addition,
        left: 3,
        right: 4,
        answer: 7,
        choices: vec![
            mk_choice(1630, 7, true),
            mk_choice(3690, 1, false),
            mk_choice(5750, 2, false),
            mk_choice(7810, 3, false),
        ],
    }
}

/// A well-formed `Playing` state with the player parked at `(x, y)`.
fn playing_sim(x: i64, y: i64, lives: i32) -> Sim {
    Sim {
        phase: Phase::Playing,
        score: 0,
        lives,
        mode: Op::Addition,
        player: Player { x, y, vx: 0, vy: 0, loco: Locomotion::Normal },
        hazard: Hazard { x: 0, y: 0, speed: 50 },
        question: std_question(),
        field_w: FIELD_W,
    }
}

#[test]
fn menu_difficulty_two_starts_at_thousand() {
    let mut sim = Sim::new(FIELD_W);
    assert_eq!(sim.phase, Phase::MainMenu);
    let mut inp = idle_input();
    inp.difficulty_pressed = Some(Difficulty::Hard);
    sim.tick(inp, 16);
    assert_eq!(sim.phase, Phase::Playing);
    assert_eq!(sim.score, 1000);
    assert_eq!(sim.lives, 10);
    assert_eq!(sim.question.choices.len(), 4, "a question exists before the next render");
    assert_eq!(sim.player.x, 700);
    assert_eq!(sim.player.y, 5500);
    assert_eq!(sim.hazard.y, 0);
}

#[test]
fn menu_mode_select_persists_without_starting() {
    let mut sim = Sim::new(FIELD_W);
    let mut inp = idle_input();
    inp.mode_pressed = Some(Op::Division);
    sim.tick(inp, 16);
    assert_eq!(sim.phase, Phase::MainMenu);
    assert_eq!(sim.mode, Op::Division);
    let mut start = idle_input();
    start.difficulty_pressed = Some(Difficulty::Easy);
    sim.tick(start, 16);
    assert_eq!(sim.phase, Phase::Playing);
    assert_eq!(sim.question.op, Op::Division, "episode uses the persisted mode");
}

#[test]
fn mode_and_difficulty_in_same_tick_use_new_mode() {
    let mut sim = Sim::new(FIELD_W);
    let mut inp = idle_input();
    inp.mode_pressed = Some(Op::Multiplication);
    inp.difficulty_pressed = Some(Difficulty::Easy);
    sim.tick(inp, 16);
    assert_eq!(sim.phase, Phase::Playing);
    assert_eq!(sim.question.op, Op::Multiplication);
}

#[test]
fn correct_answer_rewards_pauses_then_resumes() {
    // Player overlapping the correct choice's box.
    let mut sim = playing_sim(1700, 2000, 10);
    sim.tick(idle_input(), 16);
    assert_eq!(sim.score, 100, "fixed reward awarded once");
    assert_eq!(sim.lives, 10);
    assert_eq!(sim.phase, Phase::PostAnswerPause { remaining_ms: 500 });
    // Simulating at least the pause duration resumes play, reset poses,
    // fresh question.
    sim.tick(idle_input(), 600);
    assert_eq!(sim.phase, Phase::Playing);
    assert_eq!(sim.score, 100);
    assert_eq!(sim.player.x, 700);
    assert_eq!(sim.player.y, 5500);
    assert_eq!(sim.hazard.y, 0);
    assert_eq!(sim.question.choices.len(), 4);
    assert!(!sim.question.prompt.is_empty());
}

#[test]
fn pause_counts_down_by_elapsed_time() {
    let mut sim = playing_sim(1700, 2000, 10);
    sim.tick(idle_input(), 16);
    assert_eq!(sim.phase, Phase::PostAnswerPause { remaining_ms: 500 });
    sim.tick(idle_input(), 100);
    assert_eq!(sim.phase, Phase::PostAnswerPause { remaining_ms: 400 });
    assert_eq!(sim.score, 100);
}

#[test]
fn pause_expires_exactly_at_its_duration() {
    let mut sim = playing_sim(1700, 2000, 10);
    sim.tick(idle_input(), 16);
    assert_eq!(sim.phase, Phase::PostAnswerPause { remaining_ms: 500 });
    sim.tick(idle_input(), 500);
    assert_eq!(sim.phase, Phase::Playing);
}

#[test]
fn new_sim_defaults() {
    let sim = Sim::new(FIELD_W);
    assert_eq!(sim.phase, Phase::MainMenu);
    assert_eq!(sim.score, 0);
    assert_eq!(sim.lives, 10);
    assert_eq!(sim.mode, Op::Addition);
    assert!(sim.question.choices.is_empty(), "no question before an episode starts");
    assert!(sim.question.prompt.is_empty());
}

#[test]
fn wrong_answer_on_last_life_is_game_over() {
    // Player overlapping a distractor's box, one life left.
    let mut sim = playing_sim(3700, 2000, 1);
    sim.tick(idle_input(), 16);
    assert_eq!(sim.phase, Phase::GameOver);
    assert_eq!(sim.lives, 0);
    assert_eq!(sim.score, 0);
}

#[test]
fn breach_on_last_life_is_game_over() {
    let mut sim = playing_sim(700, 5500, 1);
    sim.hazard.y = 3900;
    // At score 0 the speed is 50 px/s: 10 s of descent reaches the ground.
    sim.tick(idle_input(), 10_000);
    assert_eq!(sim.phase, Phase::GameOver);
    assert_eq!(sim.lives, 0);
}

#[test]
fn breach_with_lives_left_resets_in_place() {
    let mut sim = playing_sim(700, 5500, 5);
    sim.hazard.y = 3900;
    sim.player.x = 4000;
    sim.tick(idle_input(), 10_000);
    assert_eq!(sim.phase, Phase::Playing, "no phase change on a survivable breach");
    assert_eq!(sim.lives, 4);
    assert_eq!(sim.hazard.y, 0);
    assert_eq!(sim.player.x, 700, "player reset to spawn");
    assert_eq!(sim.player.y, 5500);
    assert_eq!(sim.question.choices.len(), 4);
}

#[test]
fn wrong_answer_with_lives_left_fails_then_recovers() {
    let mut sim = playing_sim(3700, 2000, 5);
    sim.tick(idle_input(), 16);
    assert_eq!(sim.phase, Phase::Playing);
    assert_eq!(sim.lives, 4);
    assert_eq!(sim.player.loco, Locomotion::Failing);
    // Gravity carries the failing player to the ground, the sole recovery
    // path; horizontal velocity stays forced to zero.
    let mut ticks = 0;
    while sim.player.loco == Locomotion::Failing && ticks < 200 {
        let mut inp = idle_input();
        inp.left_held = true;  // ignored while failing
        sim.tick(inp, 16);
        assert_eq!(sim.player.vx, 0);
        ticks += 1;
    }
    assert_eq!(sim.player.loco, Locomotion::Normal);
    assert_eq!(sim.player.y, 6000, "recovered on the ground line");
    assert_eq!(sim.player.x, 3700, "no horizontal drift while failing");
}

#[test]
fn player_never_leaves_horizontal_range() {
    let mut sim = playing_sim(700, 5500, 10);
    for k in 0..400 {
        let mut inp = idle_input();
        match k % 4 {
            0 => inp.right_held = true,
            1 => {
                inp.right_held = true;
                inp.ascend_held = true;
            },
            2 => inp.left_held = true,
            _ => {},
        }
        if sim.phase != Phase::Playing {
            break;
        }
        sim.tick(inp, 16);
        assert!(sim.player.x >= 700, "never crosses the hazard wall");
        assert!(sim.player.x + 600 <= FIELD_W, "never leaves the right edge");
    }
}

#[test]
fn player_clamps_hard_against_both_walls() {
    let mut sim = playing_sim(700, 5500, 10);
    for _ in 0..60 {
        let mut inp = idle_input();
        inp.left_held = true;
        sim.tick(inp, 16);
    }
    assert_eq!(sim.player.x, 700);
    for _ in 0..400 {
        let mut inp = idle_input();
        inp.right_held = true;
        if sim.phase != Phase::Playing {
            break;
        }
        sim.tick(inp, 16);
    }
    assert_eq!(sim.player.x, FIELD_W - 600);
}

#[test]
fn game_over_restart_returns_to_menu() {
    let mut sim = playing_sim(3700, 2000, 1);
    sim.tick(idle_input(), 16);
    assert_eq!(sim.phase, Phase::GameOver);
    sim.tick(idle_input(), 16);
    assert_eq!(sim.phase, Phase::GameOver, "stays until restart");
    let mut inp = idle_input();
    inp.restart_pressed = true;
    sim.tick(inp, 16);
    assert_eq!(sim.phase, Phase::MainMenu);
    assert_eq!(sim.lives, 0, "counters kept for display until the next start");
}

#[test]
fn inputs_foreign_to_the_phase_are_ignored() {
    let mut sim = playing_sim(700, 5500, 10);
    let mut inp = idle_input();
    inp.difficulty_pressed = Some(Difficulty::VeryHard);
    inp.mode_pressed = Some(Op::Division);
    inp.restart_pressed = true;
    sim.tick(inp, 16);
    assert_eq!(sim.phase, Phase::Playing);
    assert_eq!(sim.score, 0);
    assert_eq!(sim.mode, Op::Addition, "mode select only acts in the menu");
}

#[test]
fn no_collision_while_failing() {
    // A failing player drifting through a choice box must not trigger it.
    let mut sim = playing_sim(1700, 1000, 5);
    sim.player.loco = Locomotion::Failing;
    sim.player.vy = 0;
    let score0 = sim.score;
    let lives0 = sim.lives;
    for _ in 0..40 {
        if sim.phase != Phase::Playing {
            break;
        }
        sim.tick(idle_input(), 16);
    }
    assert_eq!(sim.score, score0);
    assert_eq!(sim.lives, lives0);
}
