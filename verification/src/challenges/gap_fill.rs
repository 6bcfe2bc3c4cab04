//! Gap-fill challenges: sentences with gaps, each gap with its correct word.

use crate::equality::Equals;
use vstd::prelude::*;

verus! {

/// A gap-fill challenge.
#[derive(Debug, PartialEq)]
pub struct GapFill {
    /// Unique identifier for the challenge
    pub id: String,
    /// Display name of the challenge
    pub name: String,
    /// Description of the challenge
    pub description: String,
    /// Language code
    pub lang: String,
    /// List of gap-fill questions
    pub questions: Vec<GapFillQuestion>,
}

/// The value of a [`GapFill`].
pub struct GapFillView {
    pub id: Seq<char>,
    pub name: Seq<char>,
    pub description: Seq<char>,
    pub lang: Seq<char>,
    pub questions: Seq<GapFillQuestionView>,
}

impl DeepView for GapFill {
    type V = GapFillView;

    open spec fn deep_view(&self) -> GapFillView {
        GapFillView {
            id: self.id@,
            name: self.name@,
            description: self.description@,
            lang: self.lang@,
            questions: self.questions.deep_view(),
        }
    }
}

impl View for GapFill {
    type V = GapFillView;

    open spec fn view(&self) -> GapFillView {
        self.deep_view()
    }
}

impl Clone for GapFill {
    fn clone(&self) -> (r: Self)
        ensures
            r@ == self@,
    {
        let id = self.id.clone();
        let name = self.name.clone();
        let description = self.description.clone();
        let lang = self.lang.clone();
        let questions = self.questions.clone();
        assert(questions.deep_view() =~= self.questions.deep_view());
        GapFill { id, name, description, lang, questions }
    }
}

impl Equals for GapFill {
    fn equals(&self, other: &Self) -> (r: bool) {
        self.id.equals(&other.id)
            && self.name.equals(&other.name)
            && self.description.equals(&other.description)
            && self.lang.equals(&other.lang)
            && self.questions.equals(&other.questions)
    }
}

/// A sentence with gaps.
#[derive(Debug, PartialEq, Default)]
pub struct GapFillQuestion {
    /// The sentence with gaps
    pub sentence: String,
    /// Gaps to be filled
    pub gaps: Vec<Gap>,
    /// Helpful hints
    pub hints: Vec<String>,
    /// Translation of the sentence
    pub translation: String,
    /// Explanation of the grammar rule
    pub explanation: String,
}

/// The value of a [`GapFillQuestion`].
pub struct GapFillQuestionView {
    pub sentence: Seq<char>,
    pub gaps: Seq<GapView>,
    pub hints: Seq<Seq<char>>,
    pub translation: Seq<char>,
    pub explanation: Seq<char>,
}

impl DeepView for GapFillQuestion {
    type V = GapFillQuestionView;

    open spec fn deep_view(&self) -> GapFillQuestionView {
        GapFillQuestionView {
            sentence: self.sentence@,
            gaps: self.gaps.deep_view(),
            hints: self.hints.deep_view(),
            translation: self.translation@,
            explanation: self.explanation@,
        }
    }
}

impl View for GapFillQuestion {
    type V = GapFillQuestionView;

    open spec fn view(&self) -> GapFillQuestionView {
        self.deep_view()
    }
}

impl Clone for GapFillQuestion {
    fn clone(&self) -> (r: Self)
        ensures
            r@ == self@,
    {
        let sentence = self.sentence.clone();
        let gaps = self.gaps.clone();
        assert(gaps.deep_view() =~= self.gaps.deep_view());
        let hints = self.hints.clone();
        assert(hints.deep_view() =~= self.hints.deep_view());
        let translation = self.translation.clone();
        let explanation = self.explanation.clone();
        GapFillQuestion { sentence, gaps, hints, translation, explanation }
    }
}

impl Equals for GapFillQuestion {
    fn equals(&self, other: &Self) -> (r: bool) {
        self.sentence.equals(&other.sentence)
            && self.gaps.equals(&other.gaps)
            && self.hints.equals(&other.hints)
            && self.translation.equals(&other.translation)
            && self.explanation.equals(&other.explanation)
    }
}

/// A gap: where it is, its options and the correct answer.
#[derive(Debug, PartialEq, Default)]
pub struct Gap {
    /// Position of the gap in the sentence
    pub position: usize,
    /// Available options for this gap
    pub options: Vec<String>,
    /// The correct answer
    pub correct: String,
}

/// The value of a [`Gap`].
pub struct GapView {
    pub position: usize,
    pub options: Seq<Seq<char>>,
    pub correct: Seq<char>,
}

impl DeepView for Gap {
    type V = GapView;

    open spec fn deep_view(&self) -> GapView {
        GapView {
            position: self.position,
            options: self.options.deep_view(),
            correct: self.correct@,
        }
    }
}

impl View for Gap {
    type V = GapView;

    open spec fn view(&self) -> GapView {
        self.deep_view()
    }
}

impl Clone for Gap {
    fn clone(&self) -> (r: Self)
        ensures
            r@ == self@,
    {
        let position = self.position;
        let options = self.options.clone();
        assert(options.deep_view() =~= self.options.deep_view());
        let correct = self.correct.clone();
        Gap { position, options, correct }
    }
}

impl Equals for Gap {
    fn equals(&self, other: &Self) -> (r: bool) {
        self.position == other.position
            && self.options.equals(&other.options)
            && self.correct.equals(&other.correct)
    }
}

/// A player's answers for the gaps of one question.
#[derive(Debug, PartialEq, Default)]
pub struct GapFillAnswer {
    /// Index of the question being answered
    pub question_index: usize,
    /// Answers for each gap
    pub answers: Vec<String>,
}

/// The value of a [`GapFillAnswer`].
pub struct GapFillAnswerView {
    pub question_index: usize,
    pub answers: Seq<Seq<char>>,
}

impl DeepView for GapFillAnswer {
    type V = GapFillAnswerView;

    open spec fn deep_view(&self) -> GapFillAnswerView {
        GapFillAnswerView {
            question_index: self.question_index,
            answers: self.answers.deep_view(),
        }
    }
}

impl View for GapFillAnswer {
    type V = GapFillAnswerView;

    open spec fn view(&self) -> GapFillAnswerView {
        self.deep_view()
    }
}

impl Clone for GapFillAnswer {
    fn clone(&self) -> (r: Self)
        ensures
            r@ == self@,
    {
        let question_index = self.question_index;
        let answers = self.answers.clone();
        assert(answers.deep_view() =~= self.answers.deep_view());
        GapFillAnswer { question_index, answers }
    }
}

impl Equals for GapFillAnswer {
    fn equals(&self, other: &Self) -> (r: bool) {
        self.question_index == other.question_index
            && self.answers.equals(&other.answers)
    }
}
/// A gap at `position` with two options, the first of which is correct.
fn gap(position: usize, correct: &str, wrong: &str) -> (r: Gap)
    ensures
        r@.position == position && r@.correct == correct@ && r@.options == seq![correct@, wrong@],
{
    let mut options: Vec<String> = Vec::new();
    options.push(correct.to_string());
    options.push(wrong.to_string());
    let r = Gap { position, options, correct: correct.to_string() };
    assert(r@.options =~= seq![correct@, wrong@]);
    r
}

/// A question with one hint and the given gaps.
fn gap_question(sentence: &str, gaps: Vec<Gap>, hint: &str, translation: &str, explanation: &str) -> (r: GapFillQuestion)
    ensures
        r@.sentence == sentence@ && r@.gaps == gaps.deep_view() && r@.hints == seq![hint@],
        r@.translation == translation@ && r@.explanation == explanation@,
{
    let mut hints: Vec<String> = Vec::new();
    hints.push(hint.to_string());
    let r = GapFillQuestion {
        sentence: sentence.to_string(),
        gaps,
        hints,
        translation: translation.to_string(),
        explanation: explanation.to_string(),
    };
    assert(r@.hints =~= seq![hint@]);
    r
}

impl Default for GapFill {
    /// The built-in exercise on the German perfect tense: two questions of
    /// two gaps each.
    fn default() -> (r: GapFill)
        ensures
            r@.id == "past-tense"@,
            r@.name == "Past Tense Exercise"@,
            r@.lang == "de"@,
            r@.questions.len() == 2,
            forall|i: int| 0 <= i < 2 ==> (#[trigger] r@.questions[i]).gaps.len() == 2,
    {
        let mut g1: Vec<Gap> = Vec::new();
        g1.push(gap(0, "bin", "habe"));
        g1.push(gap(1, "gefahren", "gefahrt"));
        let mut g2: Vec<Gap> = Vec::new();
        g2.push(gap(0, "habe", "bin"));
        g2.push(gap(1, "gegessen", "geessen"));
        let mut questions: Vec<GapFillQuestion> = Vec::new();
        questions.push(gap_question(
            "Ich __ nach Berlin __ (fahren).",
            g1,
            "Verben der Bewegung bilden das Perfekt mit \"sein\".",
            "I went to Berlin.",
            "\"fahren\" bildet das Perfekt mit \"sein\": ich bin gefahren.",
        ));
        questions.push(gap_question(
            "Ich __ einen Apfel __ (essen).",
            g2,
            "Die meisten Verben bilden das Perfekt mit \"haben\".",
            "I ate an apple.",
            "\"essen\" bildet das Perfekt mit \"haben\": ich habe gegessen.",
        ));
        GapFill {
            id: "past-tense".to_string(),
            name: "Past Tense Exercise".to_string(),
            description: "Fill in the correct past tense forms".to_string(),
            lang: "de".to_string(),
            questions,
        }
    }
}

/// The answer fills every gap of the question it names, and each correctly.
pub open spec fn answer_correct(g: GapFillView, a: GapFillAnswerView) -> bool {
    &&& a.question_index < g.questions.len()
    &&& g.questions[a.question_index as int].gaps.len() == a.answers.len()
    &&& forall|j: int| 0 <= j < a.answers.len()
        ==> #[trigger] g.questions[a.question_index as int].gaps[j].correct == a.answers[j]
}

/// The hints as a list, one `- hint` line each.
pub open spec fn hint_lines(hints: Seq<Seq<char>>) -> Seq<char>
    decreases hints.len(),
{
    if hints.len() == 0 {
        Seq::empty()
    } else {
        hint_lines(hints.drop_last()) + "- "@ + hints.last() + "\n"@
    }
}

/// The feedback on an answer: its question's explanation when correct, its
/// hints when not, and a notice when it names no question.
pub open spec fn spec_feedback(g: GapFillView, a: GapFillAnswerView) -> Seq<char> {
    if a.question_index >= g.questions.len() {
        "Invalid question index"@
    } else if answer_correct(g, a) {
        "Correct! "@ + g.questions[a.question_index as int].explanation
    } else {
        "Incorrect. Hints:\n"@ + hint_lines(g.questions[a.question_index as int].hints)
    }
}

impl GapFill {
    /// Whether the answer fills every gap of its question correctly.
    pub fn check_answer(&self, answer: &GapFillAnswer) -> (r: bool)
        ensures
            r == answer_correct(self@, answer@),
    {
        if answer.question_index >= self.questions.len() {
            return false;
        }
        let question = &self.questions[answer.question_index];
        if question.gaps.len() != answer.answers.len() {
            return false;
        }
        let mut j: usize = 0;
        while j < answer.answers.len()
            invariant
                j <= answer@.answers.len(),
                question@ == self@.questions[answer@.question_index as int],
                question@.gaps.len() == answer@.answers.len(),
                forall|k: int| 0 <= k < j ==> #[trigger] question@.gaps[k].correct == answer@.answers[k],
            decreases answer@.answers.len() - j,
        {
            if !question.gaps[j].correct.equals(&answer.answers[j]) {
                assert(question@.gaps[j as int].correct != answer@.answers[j as int]);
                return false;
            }
            j = j + 1;
        }
        true
    }

    /// Feedback on an answer: the explanation when correct, the hints when not.
    pub fn get_feedback(&self, answer: &GapFillAnswer) -> (r: String)
        ensures
            r@ == spec_feedback(self@, answer@),
    {
        if answer.question_index >= self.questions.len() {
            return "Invalid question index".to_string();
        }
        let question = &self.questions[answer.question_index];
        if self.check_answer(answer) {
            let mut feedback = "Correct! ".to_string();
            feedback.append(question.explanation.as_str());
            feedback
        } else {
            let mut feedback = "Incorrect. Hints:\n".to_string();
            let ghost head = feedback@;
            let mut i: usize = 0;
            while i < question.hints.len()
                invariant
                    i <= question@.hints.len(),
                    feedback@ == head + hint_lines(question@.hints.take(i as int)),
                decreases question@.hints.len() - i,
            {
                assert(question@.hints.take(i + 1).drop_last() =~= question@.hints.take(i as int));
                feedback.append("- ");
                feedback.append(question.hints[i].as_str());
                feedback.append("\n");
                i = i + 1;
            }
            assert(question@.hints.take(i as int) =~= question@.hints);
            feedback
        }
    }
}


/// An answer is accepted only when it names a question of the exercise,
/// has exactly one word per gap of that question, and every gap, the last
/// one included, holds that gap's correct word; every such answer is accepted.
pub proof fn lemma_answer_accepted_only_with_every_gap_right(g: GapFillView, a: GapFillAnswerView)
    ensures
        answer_correct(g, a) ==> {
            &&& a.question_index < g.questions.len()
            &&& a.answers.len() == g.questions[a.question_index as int].gaps.len()
            &&& forall|j: int| 0 <= j < g.questions[a.question_index as int].gaps.len()
                ==> a.answers[j] == #[trigger] g.questions[a.question_index as int].gaps[j].correct
        },
        ({
            &&& a.question_index < g.questions.len()
            &&& a.answers.len() == g.questions[a.question_index as int].gaps.len()
            &&& forall|j: int| 0 <= j < g.questions[a.question_index as int].gaps.len()
                ==> a.answers[j] == #[trigger] g.questions[a.question_index as int].gaps[j].correct
        }) ==> answer_correct(g, a),
{
    if answer_correct(g, a) {
        assert forall|j: int| 0 <= j < g.questions[a.question_index as int].gaps.len()
            implies a.answers[j] == #[trigger] g.questions[a.question_index as int].gaps[j].correct by {
            assert(g.questions[a.question_index as int].gaps[j].correct == a.answers[j]);
        }
    }
}

/// Putting a word other than the correct one into any gap the answer
/// fills, the last gap included, makes the answer rejected.
pub proof fn lemma_one_wrong_gap_rejects(g: GapFillView, a: GapFillAnswerView, j: int, w: Seq<char>)
    requires
        a.question_index < g.questions.len(),
        0 <= j < g.questions[a.question_index as int].gaps.len(),
        j < a.answers.len(),
        w != g.questions[a.question_index as int].gaps[j].correct,
    ensures
        !answer_correct(g, GapFillAnswerView { answers: a.answers.update(j, w), ..a }),
{
    let b = GapFillAnswerView { answers: a.answers.update(j, w), ..a };
    if answer_correct(g, b) {
        lemma_answer_accepted_only_with_every_gap_right(g, b);
        assert(b.answers[j] == w);
    }
}

} // verus!
