//! The adaptive question generator.
//!
//! A question is a prompt over two rendered operands, the operation used,
//! the correct answer, and four positioned answer choices: one correct,
//! three distractors drawn from twice the operand bound, each different
//! from the correct value (not necessarily from each other).  Operand
//! bounds ramp with score: addition without a ceiling, multiplication and
//! division capped.

use vstd::prelude::*;
use crate::ADD_BASE;
use crate::ADD_STEP;
use crate::CHOICE_Y;
use crate::LAYOUT_MARGIN;
use crate::MUL_BASE;
use crate::MUL_CAP;
use crate::MUL_STEP;
use crate::NUM_CHOICES;
use crate::RAMP_INTERVAL;
use crate::counting::count_correct;
use crate::counting::lemma_count_correct_push;
use crate::counting::lemma_one_correct_index;
use crate::counting::lemma_count_correct_permutation;
use crate::counting::lemma_multiset_perm_elements;
use crate::numfmt::spec_dec;
use crate::numfmt::u32_to_string;
use crate::player::field_w_ok;
use crate::rng::rand_in_range;
use crate::rng::shuffle_choices;
use vstd::arithmetic::div_mod::lemma_div_is_ordered;
use vstd::arithmetic::div_mod::lemma_div_plus_one;
use vstd::string::StringExecFns;

verus! {

/// The operation a question uses.  `Mixed` is a selectable mode, not an
/// operation a generated question can carry: generation resolves it to one
/// of the three real operations, drawn fresh on every call.
#[derive(Clone, Copy, PartialEq, Eq, Structural, Debug)]
pub enum Op {
    Addition,
    Multiplication,
    Division,
    Mixed,
}

/// One displayed answer choice: a positioned hit box, its label, the value
/// the label renders, and the correctness flag.
#[derive(Debug)]
pub struct Choice {
    pub x: i64,
    pub y: i64,
    pub text: String,
    pub value: u32,
    pub is_correct: bool,
}

/// A generated question.  `left` and `right` are the two rendered
/// operands (for division: the dividend and the divisor).
#[derive(Debug)]
pub struct Question {
    pub prompt: String,
    pub op: Op,
    pub left: u32,
    pub right: u32,
    pub answer: u32,
    pub choices: Vec<Choice>,
}

/// Operand bound for addition at a score: grows by a fixed step per ramp
/// interval, without a ceiling.
pub open spec fn spec_add_bound(score: u32) -> int {
    ADD_BASE + (score as int / (RAMP_INTERVAL as int)) * ADD_STEP
}

/// Operand bound for multiplication and division at a score: grows by a
/// fixed step per ramp interval, capped at `MUL_CAP`.
pub open spec fn spec_mul_bound(score: u32) -> int {
    let raw = MUL_BASE + (score as int / (RAMP_INTERVAL as int)) * MUL_STEP;
    if raw <= MUL_CAP {
        raw
    } else {
        MUL_CAP as int
    }
}

/// Operand bound of the operation a question was generated with.
pub open spec fn spec_bound_for(op: Op, score: u32) -> int {
    match op {
        Op::Addition => spec_add_bound(score),
        Op::Multiplication => spec_mul_bound(score),
        Op::Division => spec_mul_bound(score),
        Op::Mixed => 1,
    }
}

/// Largest value `spec_add_bound` reaches over all scores.
pub const MAX_ADD_BOUND: u32 = 85_899_350;

/// Computes the addition bound.
pub fn add_bound(score: u32) -> (b: u32)
    ensures
        b == spec_add_bound(score),
        ADD_BASE <= b <= MAX_ADD_BOUND,
{
    proof {
        lemma_div_is_ordered(score as int, u32::MAX as int, RAMP_INTERVAL as int);
    }
    ADD_BASE + (score / RAMP_INTERVAL) * ADD_STEP
}

/// Computes the multiplication/division bound.
pub fn mul_bound(score: u32) -> (b: u32)
    ensures
        b == spec_mul_bound(score),
        MUL_BASE <= b <= MUL_CAP,
{
    proof {
        lemma_div_is_ordered(score as int, u32::MAX as int, RAMP_INTERVAL as int);
    }
    let raw_steps: u32 = score / RAMP_INTERVAL;
    if raw_steps >= 2 {
        MUL_CAP
    } else {
        MUL_BASE + raw_steps * MUL_STEP
    }
}

/// Both operand bounds are monotonic non-decreasing in score.
pub proof fn lemma_bounds_monotonic(s1: u32, s2: u32)
    requires
        s1 <= s2,
    ensures
        spec_add_bound(s1) <= spec_add_bound(s2),
        spec_mul_bound(s1) <= spec_mul_bound(s2),
{
    lemma_div_is_ordered(s1 as int, s2 as int, RAMP_INTERVAL as int);
}

/// The multiplication/division bound never exceeds its ceiling, and sits
/// exactly at the ceiling from two full ramp intervals onward.
pub proof fn lemma_mul_bound_capped(score: u32)
    ensures
        spec_mul_bound(score) <= MUL_CAP,
        score >= 2 * RAMP_INTERVAL ==> spec_mul_bound(score) == MUL_CAP,
{
    if score >= 2 * RAMP_INTERVAL {
        lemma_div_is_ordered(2 * RAMP_INTERVAL as int, score as int, RAMP_INTERVAL as int);
    }
}

/// The addition bound has no ceiling: every further ramp interval of score
/// raises it by the fixed step, at every score.
pub proof fn lemma_add_bound_unbounded(score: u32)
    requires
        score + RAMP_INTERVAL <= u32::MAX,
    ensures
        spec_add_bound((score + RAMP_INTERVAL) as u32) == spec_add_bound(score) + ADD_STEP,
{
    lemma_div_plus_one(score as int, RAMP_INTERVAL as int);
}

/// Horizontal position of choice box `i`: the boxes are evenly spaced
/// across the field inside a fixed margin, each centred in its slot.
pub open spec fn spec_choice_x(field_w: int, i: int) -> int {
    let slot = (field_w - 2 * LAYOUT_MARGIN) / (NUM_CHOICES as int);
    LAYOUT_MARGIN + slot * i + slot / 2 - 400
}

/// The choice boxes sit inside the field and, with at least the minimum
/// field width, do not overlap: each slot is at least one box wide.
pub proof fn lemma_choice_x_bounds(field_w: int, i: int)
    requires
        field_w_ok(field_w),
        0 <= i < NUM_CHOICES,
    ensures
        0 <= spec_choice_x(field_w, i) <= field_w,
{
    let slot = (field_w - 2 * LAYOUT_MARGIN) / (NUM_CHOICES as int);
    lemma_div_is_ordered(4000, field_w - 2 * LAYOUT_MARGIN, NUM_CHOICES as int);
    lemma_div_is_ordered(field_w - 2 * LAYOUT_MARGIN, 99_998_000, NUM_CHOICES as int);
    assert(1000 <= slot <= 24_999_500);
    assert(slot * 0 == 0 && slot * 1 == slot && slot * 2 == slot + slot && slot * 3 == slot + slot
        + slot) by (nonlinear_arith);
    lemma_div_is_ordered(0, slot, 2);
    lemma_div_is_ordered(slot, 24_999_500, 2);
}

/// Structural well-formedness of a question laid out for a field of width
/// `field_w`: four positioned choices, exactly one of them correct and
/// labelled with the answer, every distractor a positive value different
/// from the answer, labels rendering the values, the operation one of the
/// three real ones, and the answer arithmetic of the prompt's operands.
pub open spec fn question_wf(q: Question, field_w: int) -> bool {
    &&& q.choices.len() == NUM_CHOICES
    &&& count_correct(q.choices@) == 1
    &&& (forall|i: int|
        0 <= i < q.choices@.len() ==> {
            let c = #[trigger] q.choices@[i];
            &&& (c.is_correct ==> c.value == q.answer)
            &&& (!c.is_correct ==> c.value != q.answer && c.value >= 1)
            &&& c.x == spec_choice_x(field_w, i)
            &&& c.y == CHOICE_Y
            &&& c.text@ == spec_dec(c.value as int)
        })
    &&& q.op != Op::Mixed
    &&& 1 <= q.left
    &&& 1 <= q.right
    &&& 1 <= q.answer
    &&& match q.op {
        Op::Addition => q.answer == q.left + q.right,
        Op::Multiplication => q.answer == q.left * q.right,
        Op::Division => q.left == q.right * q.answer,
        Op::Mixed => false,
    }
    &&& q.prompt@ == spec_prompt(q.op, q.left, q.right)
}

/// Everything `generate` promises: a well-formed question whose operation
/// follows the selected mode, whose operands sit inside the score's bound
/// for that operation, and whose distractors sit inside twice that bound.
pub open spec fn question_ok(q: Question, score: u32, mode: Op, field_w: int) -> bool {
    &&& question_wf(q, field_w)
    &&& (mode != Op::Mixed ==> q.op == mode)
    &&& match q.op {
        Op::Addition => q.left <= spec_add_bound(score) && q.right <= spec_add_bound(score),
        Op::Multiplication => q.left <= spec_mul_bound(score) && q.right <= spec_mul_bound(score),
        Op::Division => q.right <= spec_mul_bound(score) && q.answer <= spec_mul_bound(score),
        Op::Mixed => false,
    }
    &&& (forall|i: int|
        0 <= i < q.choices@.len() && !(#[trigger] q.choices@[i]).is_correct
            ==> q.choices@[i].value <= 2 * spec_bound_for(q.op, score))
}

/// The character a question prompt renders between its operands.
pub open spec fn spec_op_char(op: Op) -> char {
    match op {
        Op::Addition => '+',
        Op::Multiplication => '×',
        Op::Division => '÷',
        Op::Mixed => '?',
    }
}

/// The full prompt text for an operation and its two rendered operands.
pub open spec fn spec_prompt(op: Op, left: u32, right: u32) -> Seq<char> {
    spec_dec(left as int) + seq![' ', spec_op_char(op), ' '] + spec_dec(right as int)
        + seq![' ', '=', ' ', '?']
}

/// Renders the prompt text.
pub fn make_prompt(op: Op, left: u32, right: u32) -> (s: String)
    requires
        op != Op::Mixed,
    ensures
        s@ == spec_prompt(op, left, right),
{
    proof {
        reveal_strlit(" + ");
        reveal_strlit(" × ");
        reveal_strlit(" ÷ ");
        reveal_strlit(" = ?");
        assert(" + "@ =~= seq![' ', '+', ' ']);
        assert(" × "@ =~= seq![' ', '×', ' ']);
        assert(" ÷ "@ =~= seq![' ', '÷', ' ']);
        assert(" = ?"@ =~= seq![' ', '=', ' ', '?']);
    }
    let mut s = u32_to_string(left);
    match op {
        Op::Addition => s.append(" + "),
        Op::Multiplication => s.append(" × "),
        Op::Division => s.append(" ÷ "),
        Op::Mixed => s.append(" + "),
    }
    let r = u32_to_string(right);
    s.append(r.as_str());
    s.append(" = ?");
    proof {
        assert(s@ =~= spec_prompt(op, left, right));
    }
    s
}

/// Draws a distractor: a value of `[1, hi]` different from `answer`,
/// uniform among such values (the effect of redrawing until different).
fn draw_distractor(answer: u32, hi: u32) -> (w: u32)
    requires
        2 <= hi,
    ensures
        1 <= w <= hi,
        w != answer,
{
    if answer < 1 || answer > hi {
        rand_in_range(1, hi)
    } else {
        let r = rand_in_range(1, hi - 1);
        if r >= answer {
            r + 1
        } else {
            r
        }
    }
}

/// Generates a new question for the score and the selected mode, laid out
/// for a field of width `field_w`.  In `Mixed` mode one of the three real
/// operations is drawn fresh on this call.
pub fn generate(score: u32, mode: Op, field_w: i64) -> (q: Question)
    requires
        field_w_ok(field_w as int),
    ensures
        question_ok(q, score, mode, field_w as int),
{
    let op = match mode {
        Op::Mixed => {
            let k = rand_in_range(0, 2);
            if k == 0 {
                Op::Addition
            } else if k == 1 {
                Op::Multiplication
            } else {
                Op::Division
            }
        },
        _ => mode,
    };
    let bound: u32 = match op {
        Op::Addition => add_bound(score),
        _ => mul_bound(score),
    };
    let left: u32;
    let right: u32;
    let answer: u32;
    match op {
        Op::Addition => {
            left = rand_in_range(1, bound);
            right = rand_in_range(1, bound);
            answer = left + right;
        },
        Op::Multiplication => {
            left = rand_in_range(1, bound);
            right = rand_in_range(1, bound);
            proof {
                lemma_small_product(left as int, right as int, MUL_CAP as int);
            }
            answer = left * right;
        },
        _ => {
            let divisor = rand_in_range(1, bound);
            let quotient = rand_in_range(1, bound);
            proof {
                lemma_small_product(divisor as int, quotient as int, MUL_CAP as int);
            }
            left = divisor * quotient;
            right = divisor;
            answer = quotient;
        },
    }
    let prompt = make_prompt(op, left, right);
    let mut drawn: Vec<Choice> = Vec::new();
    drawn.push(
        Choice { x: 0, y: 0, text: u32_to_string(answer), value: answer, is_correct: true },
    );
    proof {
        lemma_count_correct_push(Seq::<Choice>::empty(), drawn@[0]);
    }
    let mut k: usize = 0;
    while k < NUM_CHOICES - 1
        invariant
            k <= 3,
            drawn@.len() == k + 1,
            count_correct(drawn@) == 1,
            2 <= bound <= MAX_ADD_BOUND,
            forall|i: int|
                0 <= i < drawn@.len() ==> choice_values_ok(
                    #[trigger] drawn@[i],
                    answer,
                    2 * bound as int,
                ),
        decreases 3 - k,
    {
        let w = draw_distractor(answer, 2 * bound);
        let ghost pre = drawn@;
        drawn.push(Choice { x: 0, y: 0, text: u32_to_string(w), value: w, is_correct: false });
        proof {
            lemma_count_correct_push(pre, drawn@[drawn@.len() - 1]);
        }
        k = k + 1;
    }
    let ghost before_shuffle = drawn@;
    shuffle_choices(&mut drawn);
    proof {
        lemma_count_correct_permutation(before_shuffle, drawn@);
        lemma_multiset_perm_elements(before_shuffle, drawn@);
        assert forall|j: int| 0 <= j < drawn@.len() implies choice_values_ok(
            #[trigger] drawn@[j],
            answer,
            2 * bound as int,
        ) by {
            assert(before_shuffle.contains(drawn@[j]));
            let idx = choose|idx: int|
                0 <= idx < before_shuffle.len() && before_shuffle[idx] == drawn@[j];
            assert(choice_values_ok(before_shuffle[idx], answer, 2 * bound as int));
        }
    }
    let slot: i64 = (field_w - 2 * LAYOUT_MARGIN) / (NUM_CHOICES as i64);
    let mut choices: Vec<Choice> = Vec::new();
    let mut i: usize = 0;
    while i < NUM_CHOICES
        invariant
            i <= NUM_CHOICES,
            drawn@.len() == NUM_CHOICES,
            choices@.len() == i,
            slot == (field_w as int - 2 * LAYOUT_MARGIN) / (NUM_CHOICES as int),
            field_w_ok(field_w as int),
            count_correct(choices@) == count_correct(drawn@.take(i as int)),
            forall|j: int|
                0 <= j < drawn@.len() ==> choice_values_ok(
                    #[trigger] drawn@[j],
                    answer,
                    2 * bound as int,
                ),
            forall|j: int|
                0 <= j < i ==> {
                    let c = #[trigger] choices@[j];
                    &&& c.value == drawn@[j].value
                    &&& c.is_correct == drawn@[j].is_correct
                    &&& c.x == spec_choice_x(field_w as int, j)
                    &&& c.y == CHOICE_Y
                    &&& c.text@ == spec_dec(c.value as int)
                },
        decreases NUM_CHOICES - i,
    {
        proof {
            lemma_choice_x_bounds(field_w as int, i as int);
            assert(slot * (i as int) >= 0 && slot * (i as int) <= slot * 3) by (nonlinear_arith)
                requires
                    0 <= slot,
                    0 <= i <= 3,
            ;
        }
        let c = &drawn[i];
        let label = u32_to_string(c.value);
        let ghost pre = choices@;
        choices.push(
            Choice {
                x: LAYOUT_MARGIN + slot * (i as i64) + slot / 2 - 400,
                y: CHOICE_Y,
                text: label,
                value: c.value,
                is_correct: c.is_correct,
            },
        );
        proof {
            lemma_count_correct_push(pre, choices@[choices@.len() - 1]);
            lemma_count_correct_push(drawn@.take(i as int), drawn@[i as int]);
            assert(drawn@.take(i as int).push(drawn@[i as int]) =~= drawn@.take(i as int + 1));
        }
        i = i + 1;
    }
    proof {
        assert(drawn@.take(NUM_CHOICES as int) =~= drawn@);
    }
    Question { prompt, op, left, right, answer, choices }
}

/// A generated question has exactly one correct choice: some position
/// holds it, every other position is a distractor, and every distractor's
/// value differs from the answer.
pub proof fn lemma_unique_correct_choice(q: Question, field_w: int)
    requires
        question_wf(q, field_w),
    ensures
        exists|i: int|
            0 <= i < q.choices@.len() && (#[trigger] q.choices@[i]).is_correct && (forall|j: int|
                0 <= j < q.choices@.len() && j != i ==> !(#[trigger] q.choices@[j]).is_correct),
        forall|j: int|
            0 <= j < q.choices@.len() && !(#[trigger] q.choices@[j]).is_correct
                ==> q.choices@[j].value != q.answer,
{
    lemma_one_correct_index(q.choices@);
}

/// The value-level facts carried for each choice while the generator
/// assembles the list: the correct flag marks exactly the answer's value,
/// and distractor values are positive, different from the answer, and
/// bounded by `hi`.
pub open spec fn choice_values_ok(c: Choice, answer: u32, hi: int) -> bool {
    &&& (c.is_correct ==> c.value == answer)
    &&& (!c.is_correct ==> c.value != answer && 1 <= c.value <= hi)
    &&& c.text@ == spec_dec(c.value as int)
}

/// Product bound for operands drawn below the capped bound.
proof fn lemma_small_product(a: int, b: int, cap: int)
    requires
        1 <= a <= cap,
        1 <= b <= cap,
        cap == MUL_CAP,
    ensures
        1 <= a * b <= MUL_CAP * MUL_CAP,
{
    assert(1 <= a * b <= 225) by (nonlinear_arith)
        requires
            1 <= a <= 15,
            1 <= b <= 15,
    ;
}

} // verus!
