//! The answers a player has given to the tasks of a challenge.

use super::challenge_input::{ChallengeInput, ChallengeInputView};
use super::contextual_choice::{ContextItemChoiceAnswers, ContextItemChoiceAnswersView};
use super::custom::{CustomChallengeResult, CustomChallengeResultView};
use super::error::ChallengeError;
use super::gap_fill::{GapFillAnswer, GapFillAnswerView};
use super::multiple_choice::{MultipleChoiceOption, MultipleChoiceOptionView};
use super::ordering::{OrderingResult, OrderingResultView};
use super::sort_table::{SortTableRow, SortTableRowView};
use crate::equality::Equals;
use vstd::prelude::*;

verus! {

/// The answers given so far, one per task, of the kind the challenge asks for.
#[derive(Debug, PartialEq)]
pub enum ChallengeResult {
    MultipleChoice(Vec<MultipleChoiceOption>),
    ContextualChoice(Vec<ContextItemChoiceAnswers>),
    GapFill(Vec<GapFillAnswer>),
    SortTable(Vec<SortTableRow>),
    Informative,
    OrderingResults(Vec<OrderingResult>),
    Custom(CustomChallengeResult),
    Vocabulary,
}

/// The value of a [`ChallengeResult`].
pub enum ChallengeResultView {
    MultipleChoice(Seq<MultipleChoiceOptionView>),
    ContextualChoice(Seq<ContextItemChoiceAnswersView>),
    GapFill(Seq<GapFillAnswerView>),
    SortTable(Seq<SortTableRowView>),
    Informative,
    OrderingResults(Seq<OrderingResultView>),
    Custom(CustomChallengeResultView),
    Vocabulary,
}

impl DeepView for ChallengeResult {
    type V = ChallengeResultView;

    open spec fn deep_view(&self) -> ChallengeResultView {
        match self {
            ChallengeResult::MultipleChoice(v) => ChallengeResultView::MultipleChoice(v.deep_view()),
            ChallengeResult::ContextualChoice(v) => ChallengeResultView::ContextualChoice(v.deep_view()),
            ChallengeResult::GapFill(v) => ChallengeResultView::GapFill(v.deep_view()),
            ChallengeResult::SortTable(v) => ChallengeResultView::SortTable(v.deep_view()),
            ChallengeResult::Informative => ChallengeResultView::Informative,
            ChallengeResult::OrderingResults(v) => ChallengeResultView::OrderingResults(v.deep_view()),
            ChallengeResult::Custom(c) => ChallengeResultView::Custom(c@),
            ChallengeResult::Vocabulary => ChallengeResultView::Vocabulary,
        }
    }
}

impl View for ChallengeResult {
    type V = ChallengeResultView;

    open spec fn view(&self) -> ChallengeResultView {
        self.deep_view()
    }
}

impl Clone for ChallengeResult {
    fn clone(&self) -> (r: Self)
        ensures
            r@ == self@,
    {
        match self {
            ChallengeResult::MultipleChoice(v) => {
                let c = v.clone();
                assert(c.deep_view() =~= v.deep_view());
                ChallengeResult::MultipleChoice(c)
            },
            ChallengeResult::ContextualChoice(v) => {
                let c = v.clone();
                assert(c.deep_view() =~= v.deep_view());
                ChallengeResult::ContextualChoice(c)
            },
            ChallengeResult::GapFill(v) => {
                let c = v.clone();
                assert(c.deep_view() =~= v.deep_view());
                ChallengeResult::GapFill(c)
            },
            ChallengeResult::SortTable(v) => {
                let c = v.clone();
                assert(c.deep_view() =~= v.deep_view());
                ChallengeResult::SortTable(c)
            },
            ChallengeResult::Informative => ChallengeResult::Informative,
            ChallengeResult::OrderingResults(v) => {
                let c = v.clone();
                assert(c.deep_view() =~= v.deep_view());
                ChallengeResult::OrderingResults(c)
            },
            ChallengeResult::Custom(c) => ChallengeResult::Custom(c.clone()),
            ChallengeResult::Vocabulary => ChallengeResult::Vocabulary,
        }
    }
}

impl Equals for ChallengeResult {
    fn equals(&self, other: &Self) -> (r: bool) {
        match (self, other) {
            (ChallengeResult::MultipleChoice(a), ChallengeResult::MultipleChoice(b)) => a.equals(b),
            (ChallengeResult::ContextualChoice(a), ChallengeResult::ContextualChoice(b)) => a.equals(b),
            (ChallengeResult::GapFill(a), ChallengeResult::GapFill(b)) => a.equals(b),
            (ChallengeResult::SortTable(a), ChallengeResult::SortTable(b)) => a.equals(b),
            (ChallengeResult::Informative, ChallengeResult::Informative) => true,
            (ChallengeResult::OrderingResults(a), ChallengeResult::OrderingResults(b)) => a.equals(b),
            (ChallengeResult::Custom(a), ChallengeResult::Custom(b)) => a.equals(b),
            (ChallengeResult::Vocabulary, ChallengeResult::Vocabulary) => true,
            _ => false,
        }
    }
}

impl Default for ChallengeResult {
    fn default() -> (r: ChallengeResult)
        ensures
            r@ == ChallengeResultView::MultipleChoice(Seq::empty()),
    {
        let v: Vec<MultipleChoiceOption> = Vec::new();
        assert(v.deep_view() =~= Seq::<MultipleChoiceOptionView>::empty());
        ChallengeResult::MultipleChoice(v)
    }
}

/// The message of the error for an input of the wrong kind.
pub open spec fn expected_input_message(r: ChallengeResultView) -> Seq<char> {
    match r {
        ChallengeResultView::MultipleChoice(_) => "Expected MultipleChoice input"@,
        ChallengeResultView::ContextualChoice(_) => "Expected ContextualChoice input"@,
        ChallengeResultView::GapFill(_) => "Expected GapFill input"@,
        ChallengeResultView::SortTable(_) => "Expected SortTable input"@,
        ChallengeResultView::OrderingResults(_) => "Expected Ordering input"@,
        _ => Seq::empty(),
    }
}

/// The result after recording `i` as the next answer, or `None` when `i` is
/// of the wrong kind. Results that keep no answers accept any input unchanged.
pub open spec fn spec_add_input(r: ChallengeResultView, i: ChallengeInputView) -> Option<ChallengeResultView> {
    match (r, i) {
        (ChallengeResultView::MultipleChoice(v), ChallengeInputView::MultipleChoice(x)) =>
            Some(ChallengeResultView::MultipleChoice(v.push(x))),
        (ChallengeResultView::ContextualChoice(v), ChallengeInputView::ContextualChoice(x)) =>
            Some(ChallengeResultView::ContextualChoice(v.push(x))),
        (ChallengeResultView::GapFill(v), ChallengeInputView::GapFill(x)) =>
            Some(ChallengeResultView::GapFill(v.push(x))),
        (ChallengeResultView::SortTable(v), ChallengeInputView::SortTable(x)) =>
            Some(ChallengeResultView::SortTable(v.push(x))),
        (ChallengeResultView::OrderingResults(v), ChallengeInputView::OrderingResult(x)) =>
            Some(ChallengeResultView::OrderingResults(v.push(x))),
        (ChallengeResultView::Informative, _) => Some(r),
        (ChallengeResultView::Custom(_), _) => Some(r),
        (ChallengeResultView::Vocabulary, _) => Some(r),
        _ => None,
    }
}

/// `s` with `x` at position `index`; when `s` is shorter, first padded with `filler`.
pub open spec fn placed<T>(s: Seq<T>, index: int, x: T, filler: T) -> Seq<T> {
    if index < s.len() {
        s.update(index, x)
    } else {
        s + Seq::new((index - s.len()) as nat, |k: int| filler) + seq![x]
    }
}

pub open spec fn empty_option() -> MultipleChoiceOptionView {
    MultipleChoiceOptionView { id: 0, name: Seq::empty() }
}

pub open spec fn empty_choice_answers() -> ContextItemChoiceAnswersView {
    ContextItemChoiceAnswersView { ids: Seq::empty() }
}

pub open spec fn empty_gap_fill_answer() -> GapFillAnswerView {
    GapFillAnswerView { question_index: 0, answers: Seq::empty() }
}

pub open spec fn empty_row() -> SortTableRowView {
    SortTableRowView { id: 0, values: Seq::empty() }
}

pub open spec fn empty_order() -> OrderingResultView {
    OrderingResultView { order: Seq::empty() }
}

/// The result after recording `i` as the answer at `index`, or `None` when
/// `i` is of the wrong kind.
pub open spec fn spec_set_input(r: ChallengeResultView, index: int, i: ChallengeInputView) -> Option<ChallengeResultView> {
    match (r, i) {
        (ChallengeResultView::MultipleChoice(v), ChallengeInputView::MultipleChoice(x)) =>
            Some(ChallengeResultView::MultipleChoice(placed(v, index, x, empty_option()))),
        (ChallengeResultView::ContextualChoice(v), ChallengeInputView::ContextualChoice(x)) =>
            Some(ChallengeResultView::ContextualChoice(placed(v, index, x, empty_choice_answers()))),
        (ChallengeResultView::GapFill(v), ChallengeInputView::GapFill(x)) =>
            Some(ChallengeResultView::GapFill(placed(v, index, x, empty_gap_fill_answer()))),
        (ChallengeResultView::SortTable(v), ChallengeInputView::SortTable(x)) =>
            Some(ChallengeResultView::SortTable(placed(v, index, x, empty_row()))),
        (ChallengeResultView::OrderingResults(v), ChallengeInputView::OrderingResult(x)) =>
            Some(ChallengeResultView::OrderingResults(placed(v, index, x, empty_order()))),
        (ChallengeResultView::Informative, _) => Some(r),
        (ChallengeResultView::Custom(_), _) => Some(r),
        (ChallengeResultView::Vocabulary, _) => Some(r),
        _ => None,
    }
}

/// `i` is an answer of the kind of list `r` keeps, which `set_input` places
/// in it.
pub open spec fn places_answer(r: ChallengeResultView, i: ChallengeInputView) -> bool {
    match (r, i) {
        (ChallengeResultView::MultipleChoice(_), ChallengeInputView::MultipleChoice(_)) => true,
        (ChallengeResultView::ContextualChoice(_), ChallengeInputView::ContextualChoice(_)) => true,
        (ChallengeResultView::GapFill(_), ChallengeInputView::GapFill(_)) => true,
        (ChallengeResultView::SortTable(_), ChallengeInputView::SortTable(_)) => true,
        (ChallengeResultView::OrderingResults(_), ChallengeInputView::OrderingResult(_)) => true,
        _ => false,
    }
}

/// The number of answers recorded: 0 for results that keep none.
pub open spec fn result_len(r: ChallengeResultView) -> nat {
    match r {
        ChallengeResultView::MultipleChoice(v) => v.len(),
        ChallengeResultView::ContextualChoice(v) => v.len(),
        ChallengeResultView::GapFill(v) => v.len(),
        ChallengeResultView::SortTable(v) => v.len(),
        ChallengeResultView::OrderingResults(v) => v.len(),
        _ => 0,
    }
}

/// The outcome of an operation that records an answer: on success the new
/// result; otherwise the error for the wrong kind of input and the result unchanged.
pub open spec fn recorded(
    old_r: ChallengeResultView,
    new_r: ChallengeResultView,
    outcome: Result<(), ChallengeError>,
    expected: Option<ChallengeResultView>,
) -> bool {
    match expected {
        Some(n) => outcome is Ok && new_r == n,
        None => new_r == old_r && (outcome matches Err(ChallengeError::InvalidInput(m)) && m@
            == expected_input_message(old_r)),
    }
}

fn invalid_input(msg: &str) -> (e: ChallengeError)
    ensures
        e matches ChallengeError::InvalidInput(m) && m@ == msg@,
{
    ChallengeError::InvalidInput(msg.to_string())
}

fn place<T: DeepView>(v: &mut Vec<T>, index: usize, x: T, filler: &T)
    where T: Clone,
    requires
        index < usize::MAX,
        forall|a: T, b: T| #[trigger] cloned(a, b) ==> a.deep_view() == b.deep_view(),
    ensures
        final(v).deep_view() == placed(old(v).deep_view(), index as int, x.deep_view(), filler.deep_view()),
{
    let ghost old_v = v.deep_view();
    let ghost old_len = v.len();
    while v.len() <= index
        invariant
            index < usize::MAX,
            forall|a: T, b: T| #[trigger] cloned(a, b) ==> a.deep_view() == b.deep_view(),
            old_len <= index ==> v.len() <= index + 1,
            old_len > index ==> v.deep_view() == old_v,
            old_len <= index ==> v.deep_view() == old_v + Seq::new((v.len() - old_len) as nat, |k: int| filler.deep_view()),
            v.len() >= old_len,
        decreases index + 1 - v.len(),
    {
        let ghost before = v.deep_view();
        let f = filler.clone();
        v.push(f);
        assert(cloned(*filler, f));
        assert(v.deep_view() =~= before.push(filler.deep_view()));
        assert(old_v + Seq::new((v.len() - old_len) as nat, |k: int| filler.deep_view()) =~= (old_v
            + Seq::new((v.len() - 1 - old_len) as nat, |k: int| filler.deep_view())).push(filler.deep_view()));
    }
    let ghost padded = v.deep_view();
    v.set(index, x);
    assert(v.deep_view() =~= padded.update(index as int, x.deep_view()));
    proof {
        if old_len <= index {
            assert(v.len() == index + 1);
            assert(v.deep_view() =~= old_v + Seq::new((index - old_len) as nat, |k: int| filler.deep_view()) + seq![x.deep_view()]);
        } else {
            assert(v.deep_view() =~= old_v.update(index as int, x.deep_view()));
        }
    }
}

impl ChallengeResult {
    /// Records `input` as the answer to the next task.
    pub fn add_input(&mut self, input: ChallengeInput) -> (r: Result<(), ChallengeError>)
        ensures
            recorded(old(self)@, final(self)@, r, spec_add_input(old(self)@, input@)),
    {
        let ghost old_view = self@;
        match self {
            ChallengeResult::MultipleChoice(options) => match input {
                ChallengeInput::MultipleChoice(option) => {
                    let ghost ov = option@;
                    options.push(option);
                    assert(options.deep_view() =~= old_view->MultipleChoice_0.push(ov));
                    Ok(())
                },
                _ => Err(invalid_input("Expected MultipleChoice input")),
            },
            ChallengeResult::ContextualChoice(answers) => match input {
                ChallengeInput::ContextualChoice(answer) => {
                    let ghost av = answer@;
                    answers.push(answer);
                    assert(answers.deep_view() =~= old_view->ContextualChoice_0.push(av));
                    Ok(())
                },
                _ => Err(invalid_input("Expected ContextualChoice input")),
            },
            ChallengeResult::GapFill(answers) => match input {
                ChallengeInput::GapFill(answer) => {
                    let ghost av = answer@;
                    answers.push(answer);
                    assert(answers.deep_view() =~= old_view->GapFill_0.push(av));
                    Ok(())
                },
                _ => Err(invalid_input("Expected GapFill input")),
            },
            ChallengeResult::SortTable(rows) => match input {
                ChallengeInput::SortTable(row) => {
                    let ghost rv = row@;
                    rows.push(row);
                    assert(rows.deep_view() =~= old_view->SortTable_0.push(rv));
                    Ok(())
                },
                _ => Err(invalid_input("Expected SortTable input")),
            },
            ChallengeResult::OrderingResults(results) => match input {
                ChallengeInput::OrderingResult(result) => {
                    let ghost rv = result@;
                    results.push(result);
                    assert(results.deep_view() =~= old_view->OrderingResults_0.push(rv));
                    Ok(())
                },
                _ => Err(invalid_input("Expected Ordering input")),
            },
            ChallengeResult::Informative => Ok(()),
            ChallengeResult::Custom(_) => Ok(()),
            ChallengeResult::Vocabulary => Ok(()),
        }
    }

    /// Records `input` as the answer to the task at `index`, first filling
    /// the tasks before it with empty answers where none are recorded.
    pub fn set_input(&mut self, index: usize, input: ChallengeInput) -> (r: Result<(), ChallengeError>)
        requires
            places_answer(old(self)@, input@) ==> index < usize::MAX,
        ensures
            recorded(old(self)@, final(self)@, r, spec_set_input(old(self)@, index as int, input@)),
    {
        match self {
            ChallengeResult::MultipleChoice(options) => match input {
                ChallengeInput::MultipleChoice(option) => {
                    let filler = MultipleChoiceOption { id: 0, name: String::new() };
                    place(options, index, option, &filler);
                    Ok(())
                },
                _ => Err(invalid_input("Expected MultipleChoice input")),
            },
            ChallengeResult::ContextualChoice(answers) => match input {
                ChallengeInput::ContextualChoice(answer) => {
                    let filler = ContextItemChoiceAnswers { ids: Vec::new() };
                    assert(filler.ids.deep_view() =~= Seq::<usize>::empty());
                    place(answers, index, answer, &filler);
                    Ok(())
                },
                _ => Err(invalid_input("Expected ContextualChoice input")),
            },
            ChallengeResult::GapFill(answers) => match input {
                ChallengeInput::GapFill(answer) => {
                    let filler = GapFillAnswer { question_index: 0, answers: Vec::new() };
                    assert(filler.answers.deep_view() =~= Seq::<Seq<char>>::empty());
                    place(answers, index, answer, &filler);
                    Ok(())
                },
                _ => Err(invalid_input("Expected GapFill input")),
            },
            ChallengeResult::SortTable(rows) => match input {
                ChallengeInput::SortTable(row) => {
                    let filler = SortTableRow { id: 0, values: Vec::new() };
                    assert(filler.values.deep_view() =~= Seq::<Seq<char>>::empty());
                    place(rows, index, row, &filler);
                    Ok(())
                },
                _ => Err(invalid_input("Expected SortTable input")),
            },
            ChallengeResult::OrderingResults(results) => match input {
                ChallengeInput::OrderingResult(result) => {
                    let filler = OrderingResult { order: Vec::new() };
                    assert(filler.order.deep_view() =~= Seq::<usize>::empty());
                    place(results, index, result, &filler);
                    Ok(())
                },
                _ => Err(invalid_input("Expected Ordering input")),
            },
            ChallengeResult::Informative => Ok(()),
            ChallengeResult::Custom(_) => Ok(()),
            ChallengeResult::Vocabulary => Ok(()),
        }
    }

    /// The number of answers recorded.
    pub fn len(&self) -> (r: usize)
        ensures
            r == result_len(self@),
    {
        match self {
            ChallengeResult::MultipleChoice(v) => v.len(),
            ChallengeResult::ContextualChoice(v) => v.len(),
            ChallengeResult::GapFill(v) => v.len(),
            ChallengeResult::SortTable(v) => v.len(),
            ChallengeResult::OrderingResults(v) => v.len(),
            ChallengeResult::Informative => 0,
            ChallengeResult::Custom(_) => 0,
            ChallengeResult::Vocabulary => 0,
        }
    }

    /// Whether no answer is recorded.
    pub fn is_empty(&self) -> (r: bool)
        ensures
            r == (result_len(self@) == 0),
    {
        match self {
            ChallengeResult::MultipleChoice(v) => v.is_empty(),
            ChallengeResult::ContextualChoice(v) => v.is_empty(),
            ChallengeResult::GapFill(v) => v.is_empty(),
            ChallengeResult::SortTable(v) => v.is_empty(),
            ChallengeResult::OrderingResults(v) => v.is_empty(),
            ChallengeResult::Informative => true,
            ChallengeResult::Custom(_) => true,
            ChallengeResult::Vocabulary => true,
        }
    }
}


/// `w` is `v` with `x` after its last element: one longer, `x` at the old
/// length, every earlier element where it was.
pub open spec fn one_appended<T>(v: Seq<T>, w: Seq<T>, x: T) -> bool {
    &&& w.len() == v.len() + 1
    &&& w[v.len() as int] == x
    &&& forall|k: int| 0 <= k < v.len() ==> #[trigger] w[k] == v[k]
}

/// Recording an answer appends it: the answers recorded before keep their
/// positions and the new one comes last, at the old count, so answer `i`
/// stays the answer to task `i`. An answer of another kind is refused, and
/// results that keep no answers stay as they are.
pub proof fn lemma_add_input_appends(r: ChallengeResultView, i: ChallengeInputView)
    ensures
        match (r, i) {
            (ChallengeResultView::MultipleChoice(v), ChallengeInputView::MultipleChoice(x)) =>
                spec_add_input(r, i) matches Some(ChallengeResultView::MultipleChoice(w)) && one_appended(v, w, x),
            (ChallengeResultView::ContextualChoice(v), ChallengeInputView::ContextualChoice(x)) =>
                spec_add_input(r, i) matches Some(ChallengeResultView::ContextualChoice(w)) && one_appended(v, w, x),
            (ChallengeResultView::GapFill(v), ChallengeInputView::GapFill(x)) =>
                spec_add_input(r, i) matches Some(ChallengeResultView::GapFill(w)) && one_appended(v, w, x),
            (ChallengeResultView::SortTable(v), ChallengeInputView::SortTable(x)) =>
                spec_add_input(r, i) matches Some(ChallengeResultView::SortTable(w)) && one_appended(v, w, x),
            (ChallengeResultView::OrderingResults(v), ChallengeInputView::OrderingResult(x)) =>
                spec_add_input(r, i) matches Some(ChallengeResultView::OrderingResults(w)) && one_appended(v, w, x),
            (ChallengeResultView::Informative, _) => spec_add_input(r, i) == Some(r),
            (ChallengeResultView::Custom(_), _) => spec_add_input(r, i) == Some(r),
            (ChallengeResultView::Vocabulary, _) => spec_add_input(r, i) == Some(r),
            _ => spec_add_input(r, i) is None,
        },
        places_answer(r, i) ==> (spec_add_input(r, i) matches Some(n) && result_len(n) == result_len(r) + 1),
{
}

/// `w` is `v` with `x` at `index`: every other element of `v` where it was,
/// the places between the end of `v` and `index` holding `filler`, and no
/// more elements than `v` has or `index` needs.
pub open spec fn put_at<T>(v: Seq<T>, w: Seq<T>, index: int, x: T, filler: T) -> bool {
    &&& w.len() == if index < v.len() { v.len() as int } else { index + 1 }
    &&& w[index] == x
    &&& forall|k: int| 0 <= k < v.len() && k != index ==> #[trigger] w[k] == v[k]
    &&& forall|k: int| v.len() <= k < index ==> #[trigger] w[k] == filler
}

/// Setting the answer to task `index` puts it there and nowhere else: the
/// other answers keep their positions, missing answers before it are filled
/// with empty ones. An answer of another kind is refused, and results that
/// keep no answers stay as they are.
pub proof fn lemma_set_input_puts_at_index(r: ChallengeResultView, index: int, i: ChallengeInputView)
    requires
        0 <= index,
    ensures
        match (r, i) {
            (ChallengeResultView::MultipleChoice(v), ChallengeInputView::MultipleChoice(x)) =>
                spec_set_input(r, index, i) matches Some(ChallengeResultView::MultipleChoice(w))
                    && put_at(v, w, index, x, MultipleChoiceOptionView { id: 0, name: Seq::empty() }),
            (ChallengeResultView::ContextualChoice(v), ChallengeInputView::ContextualChoice(x)) =>
                spec_set_input(r, index, i) matches Some(ChallengeResultView::ContextualChoice(w))
                    && put_at(v, w, index, x, ContextItemChoiceAnswersView { ids: Seq::empty() }),
            (ChallengeResultView::GapFill(v), ChallengeInputView::GapFill(x)) =>
                spec_set_input(r, index, i) matches Some(ChallengeResultView::GapFill(w))
                    && put_at(v, w, index, x, GapFillAnswerView { question_index: 0, answers: Seq::empty() }),
            (ChallengeResultView::SortTable(v), ChallengeInputView::SortTable(x)) =>
                spec_set_input(r, index, i) matches Some(ChallengeResultView::SortTable(w))
                    && put_at(v, w, index, x, SortTableRowView { id: 0, values: Seq::empty() }),
            (ChallengeResultView::OrderingResults(v), ChallengeInputView::OrderingResult(x)) =>
                spec_set_input(r, index, i) matches Some(ChallengeResultView::OrderingResults(w))
                    && put_at(v, w, index, x, OrderingResultView { order: Seq::empty() }),
            (ChallengeResultView::Informative, _) => spec_set_input(r, index, i) == Some(r),
            (ChallengeResultView::Custom(_), _) => spec_set_input(r, index, i) == Some(r),
            (ChallengeResultView::Vocabulary, _) => spec_set_input(r, index, i) == Some(r),
            _ => spec_set_input(r, index, i) is None,
        },
{
    match (r, i) {
        (ChallengeResultView::MultipleChoice(v), ChallengeInputView::MultipleChoice(x)) =>
            lemma_placed_puts_at(v, index, x, empty_option()),
        (ChallengeResultView::ContextualChoice(v), ChallengeInputView::ContextualChoice(x)) =>
            lemma_placed_puts_at(v, index, x, empty_choice_answers()),
        (ChallengeResultView::GapFill(v), ChallengeInputView::GapFill(x)) =>
            lemma_placed_puts_at(v, index, x, empty_gap_fill_answer()),
        (ChallengeResultView::SortTable(v), ChallengeInputView::SortTable(x)) =>
            lemma_placed_puts_at(v, index, x, empty_row()),
        (ChallengeResultView::OrderingResults(v), ChallengeInputView::OrderingResult(x)) =>
            lemma_placed_puts_at(v, index, x, empty_order()),
        _ => {},
    }
}

proof fn lemma_placed_puts_at<T>(v: Seq<T>, index: int, x: T, filler: T)
    requires
        0 <= index,
    ensures
        put_at(v, placed(v, index, x, filler), index, x, filler),
{
    let w = placed(v, index, x, filler);
    if index >= v.len() {
        assert forall|k: int| v.len() <= k < index implies #[trigger] w[k] == filler by {
            assert(w[k] == Seq::new((index - v.len()) as nat, |m: int| filler)[k - v.len()]);
        }
    }
}

} // verus!
