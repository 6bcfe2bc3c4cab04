//! A challenge being played: its tasks, configuration, the answers given so
//! far and when it was started and last answered.

use super::challenge_config::{ChallengeConfig, ChallengeConfigView};
use super::challenge_input::{ChallengeInput, ChallengeInputView};
use super::challenge_result::{result_len, spec_add_input, ChallengeResult, ChallengeResultView};
use super::challenge_type::{
    choices_correct, gap_answers_correct, gaps_correct, item_correct, ChallengeType,
    ChallengeTypeView, lemma_question_correct_only_with_every_gap_right,
    lemma_sentence_correct_only_with_every_choice_right,
};
use super::multiple_choice::konnektoren_shape;
use crate::task_pattern::TaskPatternModel;
use super::error::ChallengeError;
use super::performance::Performance;
use super::solvable::Solvable;
use super::timed::{elapsed_between, now_millis, spec_elapsed, Timed};
use crate::equality::Equals;
use vstd::prelude::*;

verus! {

/// A challenge being played.
#[derive(Debug, PartialEq)]
pub struct Challenge {
    pub challenge_type: ChallengeType,
    pub challenge_config: ChallengeConfig,
    pub challenge_result: ChallengeResult,
    /// When it was started, in milliseconds since the Unix epoch
    pub start_time: Option<i64>,
    /// When it was last answered or finished, in milliseconds since the Unix epoch
    pub end_time: Option<i64>,
}

/// The value of a [`Challenge`].
pub struct ChallengeView {
    pub challenge_type: ChallengeTypeView,
    pub challenge_config: ChallengeConfigView,
    pub challenge_result: ChallengeResultView,
    pub start_time: Option<i64>,
    pub end_time: Option<i64>,
}

impl DeepView for Challenge {
    type V = ChallengeView;

    open spec fn deep_view(&self) -> ChallengeView {
        ChallengeView {
            challenge_type: self.challenge_type@,
            challenge_config: self.challenge_config@,
            challenge_result: self.challenge_result@,
            start_time: self.start_time,
            end_time: self.end_time,
        }
    }
}

impl View for Challenge {
    type V = ChallengeView;

    open spec fn view(&self) -> ChallengeView {
        self.deep_view()
    }
}

impl Clone for Challenge {
    fn clone(&self) -> (r: Self)
        ensures
            r@ == self@,
    {
        Challenge {
            challenge_type: self.challenge_type.clone(),
            challenge_config: self.challenge_config.clone(),
            challenge_result: self.challenge_result.clone(),
            start_time: self.start_time,
            end_time: self.end_time,
        }
    }
}

impl Equals for Challenge {
    fn equals(&self, other: &Self) -> (r: bool) {
        self.challenge_type.equals(&other.challenge_type)
            && self.challenge_config.equals(&other.challenge_config)
            && self.challenge_result.equals(&other.challenge_result)
            && self.start_time == other.start_time
            && self.end_time == other.end_time
    }
}

/// `c` is the default challenge: the built-in challenge on connectors with
/// the default configuration, no answers, not started.
pub open spec fn default_challenge(c: ChallengeView) -> bool {
    &&& c.challenge_type matches ChallengeTypeView::MultipleChoice(d) && konnektoren_shape(d)
    &&& c.challenge_config.id == "123"@
    &&& c.challenge_config.name == "Konnektoren #1"@
    &&& c.challenge_config.description == "Your first Konnektoren challenge!"@
    &&& c.challenge_config.challenge == "konnektoren"@
    &&& c.challenge_config.variant is None
    &&& c.challenge_config.tasks == TaskPatternModel::Exact(10)
    &&& c.challenge_config.unlock_points == 0
    &&& c.challenge_config.position == Some((0i32, 0i32))
    &&& c.challenge_result == ChallengeResultView::MultipleChoice(Seq::empty())
    &&& c.start_time is None && c.end_time is None
}

impl Default for Challenge {
    /// The default challenge type with the default configuration, not started.
    fn default() -> (r: Challenge)
        ensures
            default_challenge(r@),
    {
        Challenge {
            challenge_type: ChallengeType::default(),
            challenge_config: ChallengeConfig::default(),
            challenge_result: ChallengeResult::default(),
            start_time: None,
            end_time: None,
        }
    }
}

/// Whether the last answer of `r`, the one at position `len - 1`, solves its
/// task of `t`: the option of its question; every choice of its sentence;
/// every gap of its question, answered gap for gap; the values of its row.
/// Answers to other kinds of challenge, and answers without a task, solve nothing.
pub open spec fn last_answer_correct(t: ChallengeTypeView, r: ChallengeResultView) -> bool {
    let i = result_len(r) - 1;
    match (t, r) {
        (ChallengeTypeView::MultipleChoice(d), ChallengeResultView::MultipleChoice(v)) =>
            0 <= i < d.questions.len() && d.questions[i].option == v[i].id,
        (ChallengeTypeView::ContextualChoice(d), ChallengeResultView::ContextualChoice(v)) =>
            0 <= i < d.items.len() && item_correct(d.items[i], v[i]),
        (ChallengeTypeView::GapFill(d), ChallengeResultView::GapFill(v)) =>
            0 <= i < d.questions.len() && d.questions[i].gaps.len() == v[i].answers.len()
                && gaps_correct(d.questions[i], v[i]),
        (ChallengeTypeView::SortTable(d), ChallengeResultView::SortTable(v)) =>
            0 <= i < d.rows.len() && d.rows[i].values == v[i].values,
        _ => false,
    }
}

/// The result keeps one answer per task (it is not informative, custom or a
/// vocabulary result, which keep none).
pub open spec fn keeps_answers(r: ChallengeResultView) -> bool {
    !(r is Informative || r is Custom || r is Vocabulary)
}

impl Challenge {
    /// A challenge of `challenge_type` configured by `challenge_config`, with
    /// no answers and not started.
    pub fn new(challenge_type: &ChallengeType, challenge_config: &ChallengeConfig) -> (r: Challenge)
        ensures
            r@.challenge_type == challenge_type@,
            r@.challenge_config == challenge_config@,
            r@.challenge_result == ChallengeResultView::MultipleChoice(Seq::empty()),
            r@.start_time is None && r@.end_time is None,
    {
        Challenge {
            challenge_type: challenge_type.clone(),
            challenge_config: challenge_config.clone(),
            challenge_result: ChallengeResult::default(),
            start_time: None,
            end_time: None,
        }
    }

    /// The id of its configuration.
    pub fn get_id(&self) -> (r: String)
        ensures
            r@ == self@.challenge_config.id,
    {
        self.challenge_config.id.clone()
    }

    /// Whether at least one answer is recorded.
    pub fn solved(&self) -> (r: bool)
        ensures
            r == (result_len(self@.challenge_result) > 0),
    {
        self.challenge_result.len() > 0
    }
}

impl Solvable for Challenge {
    open spec fn can_solve(&self) -> bool {
        keeps_answers(self@.challenge_result)
    }

    /// Records the current time as the end and `input` as the next answer.
    /// Answers `true` when it solves its task; `false` when it does not,
    /// or when `input` is of the wrong kind and nothing was recorded.
    fn solve(&mut self, input: ChallengeInput) -> (r: Result<bool, ChallengeError>)
        ensures
            final(self)@.challenge_type == old(self)@.challenge_type,
            final(self)@.challenge_config == old(self)@.challenge_config,
            final(self)@.start_time == old(self)@.start_time,
            final(self)@.end_time is Some,
            match spec_add_input(old(self)@.challenge_result, input@) {
                Some(n) => final(self)@.challenge_result == n
                    && r == Ok::<bool, ChallengeError>(last_answer_correct(old(self)@.challenge_type, n)),
                None => final(self)@.challenge_result == old(self)@.challenge_result
                    && r == Ok::<bool, ChallengeError>(false),
            },
    {
        self.update_end_time();
        match self.challenge_result.add_input(input) {
            Ok(_) => {
                let index = self.challenge_result.len() - 1;
                match (&self.challenge_type, &self.challenge_result) {
                    (ChallengeType::MultipleChoice(mc), ChallengeResult::MultipleChoice(results)) => {
                        if index < mc.questions.len() && index < results.len() {
                            Ok(mc.questions[index].option == results[index].id)
                        } else {
                            Ok(false)
                        }
                    },
                    (ChallengeType::ContextualChoice(cc), ChallengeResult::ContextualChoice(results)) => {
                        if index < cc.items.len() && index < results.len() {
                            Ok(choices_correct(&cc.items[index], &results[index]))
                        } else {
                            Ok(false)
                        }
                    },
                    (ChallengeType::GapFill(gf), ChallengeResult::GapFill(results)) => {
                        if index < gf.questions.len() && index < results.len() {
                            let question = &gf.questions[index];
                            let answer = &results[index];
                            if question.gaps.len() != answer.answers.len() {
                                return Ok(false);
                            }
                            Ok(gap_answers_correct(question, answer))
                        } else {
                            Ok(false)
                        }
                    },
                    (ChallengeType::SortTable(st), ChallengeResult::SortTable(results)) => {
                        if index < st.rows.len() && index < results.len() {
                            Ok(st.rows[index].values.equals(&results[index].values))
                        } else {
                            Ok(false)
                        }
                    },
                    _ => Ok(false),
                }
            },
            Err(_) => Ok(false),
        }
    }
}

impl Performance for Challenge {
    open spec fn can_score(&self, result: ChallengeResultView) -> bool {
        self.challenge_type.can_score(result)
    }

    open spec fn performance_of(&self, result: ChallengeResultView) -> int {
        self.challenge_type.performance_of(result)
    }

    fn performance(&self, result: &ChallengeResult) -> (r: u32) {
        self.challenge_type.performance(result)
    }
}

impl Timed for Challenge {
    /// Records the current time as the start.
    fn start(&mut self)
        ensures
            final(self)@.challenge_type == old(self)@.challenge_type,
            final(self)@.challenge_config == old(self)@.challenge_config,
            final(self)@.challenge_result == old(self)@.challenge_result,
            final(self)@.end_time == old(self)@.end_time,
            final(self)@.start_time is Some,
    {
        self.start_time = Some(now_millis());
    }

    /// Records the current time as the end.
    fn update_end_time(&mut self)
        ensures
            final(self)@.challenge_type == old(self)@.challenge_type,
            final(self)@.challenge_config == old(self)@.challenge_config,
            final(self)@.challenge_result == old(self)@.challenge_result,
            final(self)@.start_time == old(self)@.start_time,
            final(self)@.end_time is Some,
    {
        self.end_time = Some(now_millis());
    }

    /// The time from start to end, in milliseconds, when both are recorded.
    fn elapsed_time(&self) -> (r: Option<i64>)
        ensures
            r matches Some(d) ==> spec_elapsed(self.start_time, self.end_time) == Some(d as int),
            r is None ==> spec_elapsed(self.start_time, self.end_time) is None,
    {
        elapsed_between(self.start_time, self.end_time)
    }

    fn start_time(&self) -> (r: Option<i64>)
        ensures
            r == self.start_time,
    {
        self.start_time
    }

    fn end_time(&self) -> (r: Option<i64>)
        ensures
            r == self.end_time,
    {
        self.end_time
    }
}


/// Solving judges the answer just given against the task at the position it
/// is recorded at, the number of answers before it: a multiple-choice answer
/// is right exactly when that question exists and the chosen option is its
/// option; a contextual-choice answer when that sentence exists and every
/// answered gap picks an existing option equal to its correct answer; a
/// gap-fill answer when that question exists, the answer has one word per
/// gap and each is the gap's correct word; a table row when it holds that
/// row's values. Other answers are never judged right.
pub proof fn lemma_solve_judges_answer_by_its_task(t: ChallengeTypeView, r: ChallengeResultView, i: ChallengeInputView)
    ensures
        spec_add_input(r, i) matches Some(n) ==> (last_answer_correct(t, n) <==> match (t, r, i) {
            (ChallengeTypeView::MultipleChoice(d), ChallengeResultView::MultipleChoice(v), ChallengeInputView::MultipleChoice(x)) =>
                v.len() < d.questions.len() && d.questions[v.len() as int].option == x.id,
            (ChallengeTypeView::ContextualChoice(d), ChallengeResultView::ContextualChoice(v), ChallengeInputView::ContextualChoice(x)) =>
                v.len() < d.items.len() && forall|j: int| #![trigger d.items[v.len() as int].choices[j], x.ids[j]]
                    0 <= j < d.items[v.len() as int].choices.len() && 0 <= j < x.ids.len() ==> {
                        &&& x.ids[j] < d.items[v.len() as int].choices[j].options.len()
                        &&& d.items[v.len() as int].choices[j].options[x.ids[j] as int]
                            == d.items[v.len() as int].choices[j].correct_answer
                    },
            (ChallengeTypeView::GapFill(d), ChallengeResultView::GapFill(v), ChallengeInputView::GapFill(x)) =>
                v.len() < d.questions.len() && d.questions[v.len() as int].gaps.len() == x.answers.len()
                && forall|j: int| #![trigger d.questions[v.len() as int].gaps[j], x.answers[j]]
                    0 <= j < x.answers.len() ==> x.answers[j] == d.questions[v.len() as int].gaps[j].correct,
            (ChallengeTypeView::SortTable(d), ChallengeResultView::SortTable(v), ChallengeInputView::SortTable(x)) =>
                v.len() < d.rows.len() && d.rows[v.len() as int].values == x.values,
            _ => false,
        }),
{
    if let Some(n) = spec_add_input(r, i) {
        match (t, r, i) {
            (ChallengeTypeView::ContextualChoice(d), ChallengeResultView::ContextualChoice(v), ChallengeInputView::ContextualChoice(x)) => {
                if v.len() < d.items.len() {
                    lemma_sentence_correct_only_with_every_choice_right(d.items[v.len() as int], x);
                    assert(n == ChallengeResultView::ContextualChoice(v.push(x)));
                    assert(v.push(x)[v.len() as int] == x);
                }
            },
            (ChallengeTypeView::GapFill(d), ChallengeResultView::GapFill(v), ChallengeInputView::GapFill(x)) => {
                if v.len() < d.questions.len() {
                    lemma_question_correct_only_with_every_gap_right(d.questions[v.len() as int], x);
                    assert(n == ChallengeResultView::GapFill(v.push(x)));
                    assert(v.push(x)[v.len() as int] == x);
                }
            },
            (ChallengeTypeView::MultipleChoice(d), ChallengeResultView::MultipleChoice(v), ChallengeInputView::MultipleChoice(x)) => {
                assert(v.push(x)[v.len() as int] == x);
            },
            (ChallengeTypeView::SortTable(d), ChallengeResultView::SortTable(v), ChallengeInputView::SortTable(x)) => {
                assert(v.push(x)[v.len() as int] == x);
            },
            _ => {},
        }
    }
}

} // verus!
