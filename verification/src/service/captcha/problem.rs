//! The arithmetic problems a captcha asks, and their answer options.

use vstd::prelude::*;

use crate::utils::random::{random_in, shuffle};
use crate::utils::text::{decimal, push_char, push_decimal, push_str};

verus! {

/// How many answers a captcha offers.
pub const OPTION_COUNT: usize = 4;

/// How far a wrong answer may lie from the right one.
pub const DISTRACTOR_SPREAD: u32 = 9;

/// How many wrong answers are offered.
pub const DISTRACTOR_COUNT: usize = 3;

#[derive(Clone, Copy, Debug, PartialEq, Eq, Structural)]
pub enum Operator {
    Add,
    Subtract,
    Multiply,
}

pub open spec fn spec_symbol(operator: Operator) -> char {
    match operator {
        Operator::Add => '+',
        Operator::Subtract => '\u{2212}',
        Operator::Multiply => '\u{00D7}',
    }
}

impl Operator {
    /// The sign printed for the operator: `+`, the minus sign U+2212 and the
    /// multiplication sign U+00D7.
    pub fn symbol(self) -> (c: char)
        ensures
            c == spec_symbol(self),
    {
        match self {
            Operator::Add => '+',
            Operator::Subtract => '\u{2212}',
            Operator::Multiply => '\u{00D7}',
        }
    }
}

#[derive(Clone, Copy, Debug, PartialEq, Eq, Structural)]
pub struct ArithmeticProblem {
    pub left: u32,
    pub operator: Operator,
    pub right: u32,
}

/// The exact answer, as an integer.
pub open spec fn spec_answer(p: ArithmeticProblem) -> int {
    match p.operator {
        Operator::Add => p.left + p.right,
        Operator::Subtract => p.left - p.right,
        Operator::Multiply => p.left * p.right,
    }
}

/// Whether the answer is a `u32`, so that computing it cannot overflow.
pub open spec fn answer_fits(p: ArithmeticProblem) -> bool {
    0 <= spec_answer(p) <= u32::MAX
}

/// The problems `random` draws: sums of two numbers in 3..=25, differences
/// of a number in 8..=40 and a smaller one from 2, products of two numbers
/// in 2..=9.
pub open spec fn is_drawable(p: ArithmeticProblem) -> bool {
    match p.operator {
        Operator::Add => 3 <= p.left <= 25 && 3 <= p.right <= 25,
        Operator::Subtract => 8 <= p.left <= 40 && 2 <= p.right < p.left,
        Operator::Multiply => 2 <= p.left <= 9 && 2 <= p.right <= 9,
    }
}

/// The question as shown, e.g. `12 − 7 = ?`.
pub open spec fn spec_question_text(p: ArithmeticProblem) -> Seq<char> {
    decimal(p.left as nat) + seq![' ', spec_symbol(p.operator), ' '] + decimal(p.right as nat)
        + seq![' ', '=', ' ', '?']
}

impl ArithmeticProblem {
    /// A problem drawn at random; see `is_drawable`.
    pub fn random() -> (p: Self)
        ensures
            is_drawable(p),
    {
        let kind = random_in(0, 2);
        if kind == 0 {
            let left = random_in(3, 25);
            let right = random_in(3, 25);
            ArithmeticProblem { left, operator: Operator::Add, right }
        } else if kind == 1 {
            let left = random_in(8, 40);
            let right = random_in(2, left - 1);
            ArithmeticProblem { left, operator: Operator::Subtract, right }
        } else {
            let left = random_in(2, 9);
            let right = random_in(2, 9);
            ArithmeticProblem { left, operator: Operator::Multiply, right }
        }
    }

    /// The answer of the problem.
    pub fn answer(&self) -> (answer: u32)
        requires
            answer_fits(*self),
        ensures
            answer == spec_answer(*self),
    {
        match self.operator {
            Operator::Add => self.left + self.right,
            Operator::Subtract => self.left - self.right,
            Operator::Multiply => {
                assert(self.left * self.right <= u32::MAX);
                self.left * self.right
            },
        }
    }

    /// The question as shown: the two numbers around the operator's sign,
    /// then ` = ?`.
    pub fn question_text(&self) -> (text: String)
        ensures
            text@ == spec_question_text(*self),
    {
        let mut text = String::new();
        push_decimal(&mut text, self.left as u64);
        push_char(&mut text, ' ');
        push_char(&mut text, self.operator.symbol());
        push_char(&mut text, ' ');
        push_decimal(&mut text, self.right as u64);
        push_str(&mut text, " = ?");
        proof {
            reveal_strlit(" = ?");
        }
        assert(text@ =~= spec_question_text(*self));
        text
    }
}

/// Every problem that can be drawn has an answer from 1 to 99.
pub proof fn lemma_drawn_answers_have_two_digits_at_most(p: ArithmeticProblem)
    requires
        is_drawable(p),
    ensures
        answer_fits(p),
        1 <= spec_answer(p) < 100,
{
    if p.operator == Operator::Multiply {
        assert(4 <= p.left * p.right <= 81) by (nonlinear_arith)
            requires
                2 <= p.left <= 9,
                2 <= p.right <= 9,
        ;
    }
}

#[derive(Clone, Debug)]
pub struct CaptchaQuestion {
    pub problem: ArithmeticProblem,
    pub option_values: Vec<u32>,
    pub correct_answer: u8,
}

/// A wrong answer offered beside `answer`: another number at most
/// `DISTRACTOR_SPREAD` away from it.
pub open spec fn is_distractor(answer: int, v: u32) -> bool {
    &&& v != answer
    &&& answer - DISTRACTOR_SPREAD <= v <= answer + DISTRACTOR_SPREAD
}

/// What every question `CaptchaQuestion::random` makes satisfies: a drawable
/// problem, four different options, the answer at position
/// `correct_answer` (counted from 1), and wrong answers near it.
pub open spec fn is_well_made(q: CaptchaQuestion) -> bool {
    let answer = spec_answer(q.problem);
    let options = q.option_values@;
    &&& is_drawable(q.problem)
    &&& options.len() == OPTION_COUNT
    &&& options.no_duplicates()
    &&& 1 <= q.correct_answer <= OPTION_COUNT
    &&& options[q.correct_answer - 1] == answer
    &&& forall|i: int|
        0 <= i < OPTION_COUNT && i != q.correct_answer - 1 ==> is_distractor(answer, #[trigger] options[i])
}

/// The numbers near `answer` other than itself, in increasing order.
fn distractor_candidates(answer: u32) -> (candidates: Vec<u32>)
    requires
        1 <= answer < 100,
    ensures
        candidates@.len() >= DISTRACTOR_COUNT,
        candidates@.no_duplicates(),
        forall|i: int| 0 <= i < candidates@.len() ==> is_distractor(answer as int, #[trigger] candidates@[i]),
{
    let low = if answer >= DISTRACTOR_SPREAD {
        answer - DISTRACTOR_SPREAD
    } else {
        0
    };
    let high = answer + DISTRACTOR_SPREAD;
    let mut candidates: Vec<u32> = Vec::new();
    let mut v = low;
    while v <= high
        invariant
            1 <= answer < 100,
            low <= v <= high + 1,
            high == answer + DISTRACTOR_SPREAD,
            low == if answer >= DISTRACTOR_SPREAD { answer - DISTRACTOR_SPREAD } else { 0 },
            candidates@.len() == if v <= answer { v - low } else { v - low - 1 },
            forall|i: int, j: int| 0 <= i < j < candidates@.len() ==> candidates@[i] < candidates@[j],
            forall|i: int|
                0 <= i < candidates@.len() ==> low <= #[trigger] candidates@[i] < v && is_distractor(
                    answer as int,
                    candidates@[i],
                ),
        decreases high + 1 - v,
    {
        if v != answer {
            candidates.push(v);
        }
        v = v + 1;
    }
    assert(candidates@.no_duplicates()) by {
        assert forall|i: int, j: int| 0 <= i < candidates@.len() && 0 <= j < candidates@.len() && i != j
            implies candidates@[i] != candidates@[j] by {
            if i < j {
                assert(candidates@[i] < candidates@[j]);
            } else {
                assert(candidates@[j] < candidates@[i]);
            }
        }
    }
    candidates
}

impl CaptchaQuestion {
    /// A question with a random problem, three wrong answers picked at
    /// random among its neighbours, and the right answer at a random one of
    /// the four positions.
    pub fn random() -> (q: Self)
        ensures
            is_well_made(q),
    {
        let problem = ArithmeticProblem::random();
        proof {
            lemma_drawn_answers_have_two_digits_at_most(problem);
        }
        let answer = problem.answer();
        let mut candidates = distractor_candidates(answer);
        let ghost before = candidates@;
        shuffle(&mut candidates);
        proof {
            broadcast use vstd::seq_lib::group_to_multiset_ensures;

            assert(candidates@.len() == before.len()) by {
                before.to_multiset_ensures();
                candidates@.to_multiset_ensures();
            }
            before.lemma_multiset_has_no_duplicates();
            candidates@.lemma_multiset_has_no_duplicates_conv();
            assert forall|i: int| 0 <= i < candidates@.len() implies is_distractor(
                answer as int,
                #[trigger] candidates@[i],
            ) by {
                assert(candidates@.contains(candidates@[i]));
                assert(before.to_multiset().count(candidates@[i]) > 0);
                assert(before.contains(candidates@[i]));
            }
        }
        let mut option_values: Vec<u32> = Vec::new();
        let mut i: usize = 0;
        while i < DISTRACTOR_COUNT
            invariant
                i <= DISTRACTOR_COUNT <= candidates@.len(),
                candidates@.no_duplicates(),
                option_values@ == candidates@.take(i as int),
            decreases DISTRACTOR_COUNT - i,
        {
            option_values.push(candidates[i]);
            i = i + 1;
            assert(option_values@ =~= candidates@.take(i as int));
        }
        let ghost distractors = option_values@;
        let slot = random_in(0, 3);
        option_values.insert(slot as usize, answer);
        let q = CaptchaQuestion { problem, option_values, correct_answer: (slot + 1) as u8 };
        proof {
            let options = q.option_values@;
            assert(options =~= distractors.insert(slot as int, answer));
            distractors.insert_ensures(slot as int, answer);
            assert forall|k: int| 0 <= k < OPTION_COUNT && k != slot implies is_distractor(
                answer as int,
                #[trigger] options[k],
            ) by {
                if k < slot {
                    assert(options[k] == distractors[k]);
                    assert(distractors[k] == candidates@[k]);
                } else {
                    assert(options[k] == distractors[k - 1]);
                    assert(distractors[k - 1] == candidates@[k - 1]);
                }
            }
            assert forall|a: int, b: int| 0 <= a < options.len() && 0 <= b < options.len() && a != b
                implies options[a] != options[b] by {
                if a != slot && b != slot {
                    let a0 = if a < slot { a } else { a - 1 };
                    let b0 = if b < slot { b } else { b - 1 };
                    assert(options[a] == candidates@[a0]);
                    assert(options[b] == candidates@[b0]);
                }
            }
        }
        q
    }
}

} // verus!
