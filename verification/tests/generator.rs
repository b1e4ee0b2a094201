//! Tests for the question generator.

use mathnaut::question::{generate, Op};

const FIELD_W: i64 = 10240;

fn check_shape(score: u32, mode: Op) {
    let q = generate(score, mode, FIELD_W);
    assert_eq!(q.choices.len(), 4);
    let correct: Vec<_> = q.choices.iter().filter(|c| c.is_correct).collect();
    assert_eq!(correct.len(), 1, "exactly one correct choice");
    assert_eq!(correct[0].value, q.answer);
    assert_eq!(correct[0].text, q.answer.to_string());
    for c in q.choices.iter() {
        if !c.is_correct {
            assert_ne!(c.value, q.answer, "distractor equals the correct value");
            assert!(c.value >= 1);
        }
        assert_eq!(c.text, c.value.to_string());
    }
    assert_ne!(q.op, Op::Mixed);
    if mode != Op::Mixed {
        assert_eq!(q.op, mode);
    }
}

#[test]
fn four_choices_one_correct_every_mode() {
    for score in [0u32, 499, 500, 1000, 1500, 12345] {
        for mode in [Op::Addition, Op::Multiplication, Op::Division, Op::Mixed] {
            for _ in 0..20 {
                check_shape(score, mode);
            }
        }
    }
}

#[test]
fn addition_scenario_score_zero() {
    for _ in 0..50 {
        let q = generate(0, Op::Addition, FIELD_W);
        assert_eq!(q.op, Op::Addition);
        assert!((1..=10).contains(&q.left));
        assert!((1..=10).contains(&q.right));
        assert_eq!(q.answer, q.left + q.right);
        assert_eq!(q.prompt, format!("{} + {} = ?", q.left, q.right));
    }
}

#[test]
fn division_dividend_is_divisor_times_quotient() {
    for score in [0u32, 700, 5000] {
        for _ in 0..50 {
            let q = generate(score, Op::Division, FIELD_W);
            assert_eq!(q.op, Op::Division);
            assert_eq!(q.left, q.right * q.answer, "dividend = divisor * quotient");
            assert!(q.right >= 1);
            assert!(q.answer >= 1);
            assert_eq!(q.prompt, format!("{} ÷ {} = ?", q.left, q.right));
            let correct: Vec<_> = q.choices.iter().filter(|c| c.is_correct).collect();
            assert_eq!(correct[0].value, q.answer, "correct choice is the quotient");
        }
    }
}

#[test]
fn multiplication_prompt_and_product() {
    let q = generate(0, Op::Multiplication, FIELD_W);
    assert!((1..=5).contains(&q.left));
    assert!((1..=5).contains(&q.right));
    assert_eq!(q.answer, q.left * q.right);
    assert_eq!(q.prompt, format!("{} × {} = ?", q.left, q.right));
}

#[test]
fn operands_respect_score_bounds() {
    for _ in 0..50 {
        let q = generate(1000, Op::Addition, FIELD_W);
        assert!((1..=30).contains(&q.left));
        assert!((1..=30).contains(&q.right));
        for c in q.choices.iter() {
            if !c.is_correct {
                assert!((1..=60).contains(&c.value), "distractor within twice the bound");
            }
        }
    }
    for _ in 0..50 {
        let q = generate(1_000_000, Op::Multiplication, FIELD_W);
        assert!((1..=15).contains(&q.left), "multiplication bound capped");
        assert!((1..=15).contains(&q.right));
        for c in q.choices.iter() {
            if !c.is_correct {
                assert!((1..=30).contains(&c.value));
            }
        }
    }
}

#[test]
fn choices_laid_out_evenly() {
    // slot = (10240 - 2000) / 4 = 2060; x_i = 1000 + 2060 i + 1030 - 400.
    let q = generate(0, Op::Addition, FIELD_W);
    let xs: Vec<i64> = q.choices.iter().map(|c| c.x).collect();
    assert_eq!(xs, vec![1630, 3690, 5750, 7810]);
    for c in q.choices.iter() {
        assert_eq!(c.y, 2000);
    }
}

#[test]
fn mixed_mode_never_yields_mixed() {
    for _ in 0..60 {
        let q = generate(0, Op::Mixed, FIELD_W);
        assert!(matches!(q.op, Op::Addition | Op::Multiplication | Op::Division));
    }
}
