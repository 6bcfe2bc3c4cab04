//! The kinds of challenge, their tasks, and how answers to them are scored.

use super::challenge_result::{ChallengeResult, ChallengeResultView};
use super::contextual_choice::{
    Choice, ChoiceView, ContextItem, ContextItemChoiceAnswers, ContextItemChoiceAnswersView,
    ContextItemView, ContextualChoice, ContextualChoiceView,
};
use super::custom::{Custom, CustomView};
use super::gap_fill::{GapFill, GapFillAnswer, GapFillAnswerView, GapFillQuestion, GapFillQuestionView, GapFillView};
use super::informative::{Informative, InformativeView};
use super::multiple_choice::{
    konnektoren, konnektoren_shape, MultipleChoice, MultipleChoiceOptionView, MultipleChoiceView,
    QuestionView,
};
use super::ordering::{OrderingChallenge, OrderingChallengeView, OrderingItemView, OrderingResultView};
use super::placeholder::{Placeholder, PlaceholderView};
use super::sort_table::{SortTable, SortTableRowView, SortTableView};
use super::performance::Performance;
use crate::equality::Equals;
use crate::task_pattern::{
    random_bounds, clamped_end, clamped_start, min_nat, selectable, selection, TaskPattern,
    TaskPatternModel,
};
use vstd::prelude::*;

verus! {

/// A challenge of one of the kinds the game knows, with its tasks.
#[derive(Debug, PartialEq)]
pub enum ChallengeType {
    MultipleChoice(MultipleChoice),
    ContextualChoice(ContextualChoice),
    GapFill(GapFill),
    SortTable(SortTable),
    Informative(Informative),
    OrderingChallenge(OrderingChallenge),
    Custom(Custom),
    Placeholder(Placeholder),
}

/// The value of a [`ChallengeType`].
pub enum ChallengeTypeView {
    MultipleChoice(MultipleChoiceView),
    ContextualChoice(ContextualChoiceView),
    GapFill(GapFillView),
    SortTable(SortTableView),
    Informative(InformativeView),
    OrderingChallenge(OrderingChallengeView),
    Custom(CustomView),
    Placeholder(PlaceholderView),
}

impl DeepView for ChallengeType {
    type V = ChallengeTypeView;

    open spec fn deep_view(&self) -> ChallengeTypeView {
        match self {
            ChallengeType::MultipleChoice(d) => ChallengeTypeView::MultipleChoice(d@),
            ChallengeType::ContextualChoice(d) => ChallengeTypeView::ContextualChoice(d@),
            ChallengeType::GapFill(d) => ChallengeTypeView::GapFill(d@),
            ChallengeType::SortTable(d) => ChallengeTypeView::SortTable(d@),
            ChallengeType::Informative(d) => ChallengeTypeView::Informative(d@),
            ChallengeType::OrderingChallenge(d) => ChallengeTypeView::OrderingChallenge(d@),
            ChallengeType::Custom(d) => ChallengeTypeView::Custom(d@),
            ChallengeType::Placeholder(d) => ChallengeTypeView::Placeholder(d@),
        }
    }
}

impl View for ChallengeType {
    type V = ChallengeTypeView;

    open spec fn view(&self) -> ChallengeTypeView {
        self.deep_view()
    }
}

impl Clone for ChallengeType {
    fn clone(&self) -> (r: Self)
        ensures
            r@ == self@,
    {
        match self {
            ChallengeType::MultipleChoice(d) => ChallengeType::MultipleChoice(d.clone()),
            ChallengeType::ContextualChoice(d) => ChallengeType::ContextualChoice(d.clone()),
            ChallengeType::GapFill(d) => ChallengeType::GapFill(d.clone()),
            ChallengeType::SortTable(d) => ChallengeType::SortTable(d.clone()),
            ChallengeType::Informative(d) => ChallengeType::Informative(d.clone()),
            ChallengeType::OrderingChallenge(d) => ChallengeType::OrderingChallenge(d.clone()),
            ChallengeType::Custom(d) => ChallengeType::Custom(d.clone()),
            ChallengeType::Placeholder(d) => ChallengeType::Placeholder(d.clone()),
        }
    }
}

impl Equals for ChallengeType {
    fn equals(&self, other: &Self) -> (r: bool) {
        match (self, other) {
            (ChallengeType::MultipleChoice(a), ChallengeType::MultipleChoice(b)) => a.equals(b),
            (ChallengeType::ContextualChoice(a), ChallengeType::ContextualChoice(b)) => a.equals(b),
            (ChallengeType::GapFill(a), ChallengeType::GapFill(b)) => a.equals(b),
            (ChallengeType::SortTable(a), ChallengeType::SortTable(b)) => a.equals(b),
            (ChallengeType::Informative(a), ChallengeType::Informative(b)) => a.equals(b),
            (ChallengeType::OrderingChallenge(a), ChallengeType::OrderingChallenge(b)) => a.equals(b),
            (ChallengeType::Custom(a), ChallengeType::Custom(b)) => a.equals(b),
            (ChallengeType::Placeholder(a), ChallengeType::Placeholder(b)) => a.equals(b),
            _ => false,
        }
    }
}

/// The display name of a challenge type.
pub open spec fn challenge_name(t: ChallengeTypeView) -> Seq<char> {
    match t {
        ChallengeTypeView::MultipleChoice(d) => d.name,
        ChallengeTypeView::ContextualChoice(d) => d.name,
        ChallengeTypeView::GapFill(d) => d.name,
        ChallengeTypeView::SortTable(d) => d.name,
        ChallengeTypeView::Informative(d) => d.name,
        ChallengeTypeView::OrderingChallenge(d) => d.name,
        ChallengeTypeView::Custom(d) => d.name,
        ChallengeTypeView::Placeholder(d) => d.name,
    }
}

/// The id of a challenge type.
pub open spec fn type_id(t: ChallengeTypeView) -> Seq<char> {
    match t {
        ChallengeTypeView::MultipleChoice(d) => d.id,
        ChallengeTypeView::ContextualChoice(d) => d.id,
        ChallengeTypeView::GapFill(d) => d.id,
        ChallengeTypeView::SortTable(d) => d.id,
        ChallengeTypeView::Informative(d) => d.id,
        ChallengeTypeView::OrderingChallenge(d) => d.id,
        ChallengeTypeView::Custom(d) => d.id,
        ChallengeTypeView::Placeholder(d) => d.id,
    }
}

/// The kebab-case key of a challenge type's kind.
pub open spec fn type_key(t: ChallengeTypeView) -> Seq<char> {
    match t {
        ChallengeTypeView::MultipleChoice(_) => "multiple-choice"@,
        ChallengeTypeView::ContextualChoice(_) => "contextual-choice"@,
        ChallengeTypeView::GapFill(_) => "gap-fill"@,
        ChallengeTypeView::SortTable(_) => "sort-table"@,
        ChallengeTypeView::Informative(_) => "informative"@,
        ChallengeTypeView::OrderingChallenge(_) => "ordering"@,
        ChallengeTypeView::Custom(_) => "custom"@,
        ChallengeTypeView::Placeholder(_) => "placeholder"@,
    }
}

/// How many of the first `n` positions satisfy `p`.
pub open spec fn count_true(n: nat, p: spec_fn(int) -> bool) -> nat
    decreases n,
{
    if n == 0 {
        0
    } else {
        count_true((n - 1) as nat, p) + if p(n - 1) { 1nat } else { 0nat }
    }
}

pub proof fn lemma_count_true_bound(n: nat, p: spec_fn(int) -> bool)
    ensures
        count_true(n, p) <= n,
    decreases n,
{
    if n > 0 {
        lemma_count_true_bound((n - 1) as nat, p);
    }
}

/// The answer `id` picks the correct option of a gap.
pub open spec fn choice_correct(c: ChoiceView, id: usize) -> bool {
    id < c.options.len() && c.options[id as int] == c.correct_answer
}

/// Every gap of the sentence that has an answer is answered correctly.
pub open spec fn item_correct(item: ContextItemView, answers: ContextItemChoiceAnswersView) -> bool {
    forall|j: int| 0 <= j < min_nat(item.choices.len() as int, answers.ids.len() as int)
        ==> #[trigger] choice_correct(item.choices[j], answers.ids[j])
}

/// Every gap of the question that has an answer is answered with its correct word.
pub open spec fn gaps_correct(q: GapFillQuestionView, a: GapFillAnswerView) -> bool {
    forall|j: int| 0 <= j < min_nat(q.gaps.len() as int, a.answers.len() as int)
        ==> #[trigger] q.gaps[j].correct == a.answers[j]
}

/// The number of tasks answered correctly, task `i` against answer `i`.
pub open spec fn score(t: ChallengeTypeView, r: ChallengeResultView) -> nat {
    match (t, r) {
        (ChallengeTypeView::MultipleChoice(d), ChallengeResultView::MultipleChoice(o)) =>
            count_true(min_nat(d.questions.len() as int, o.len() as int) as nat, |i: int| d.questions[i].option == o[i].id),
        (ChallengeTypeView::ContextualChoice(d), ChallengeResultView::ContextualChoice(c)) =>
            count_true(min_nat(d.items.len() as int, c.len() as int) as nat, |i: int| item_correct(d.items[i], c[i])),
        (ChallengeTypeView::GapFill(d), ChallengeResultView::GapFill(a)) =>
            count_true(min_nat(d.questions.len() as int, a.len() as int) as nat, |i: int| gaps_correct(d.questions[i], a[i])),
        (ChallengeTypeView::SortTable(d), ChallengeResultView::SortTable(rows)) =>
            count_true(min_nat(d.rows.len() as int, rows.len() as int) as nat, |i: int| d.rows[i].values == rows[i].values),
        (ChallengeTypeView::OrderingChallenge(d), ChallengeResultView::OrderingResults(res)) =>
            count_true(min_nat(d.items.len() as int, res.len() as int) as nat, |i: int| d.items[i].correct_order == res[i].order),
        _ => 0,
    }
}

/// The number of tasks a scored challenge type has.
pub open spec fn task_total(t: ChallengeTypeView) -> nat {
    match t {
        ChallengeTypeView::MultipleChoice(d) => d.questions.len(),
        ChallengeTypeView::ContextualChoice(d) => d.items.len(),
        ChallengeTypeView::GapFill(d) => d.questions.len(),
        ChallengeTypeView::SortTable(d) => d.rows.len(),
        ChallengeTypeView::OrderingChallenge(d) => d.items.len(),
        _ => 0,
    }
}

/// `100 * score / total`, the total counted as a `u32`; 0 when there are no tasks.
pub open spec fn percent(score: nat, total: nat) -> int {
    if total == 0 {
        0
    } else {
        ((100 * score) as int) / ((total as u32) as int)
    }
}

/// The arithmetic of `percent` stays in `u32` and does not divide by zero.
pub open spec fn percent_fits(score: nat, total: nat) -> bool {
    total == 0 || ((total as u32) != 0 && 100 * score <= u32::MAX)
}

/// Answers of this kind can be scored against this challenge type: each kind
/// of challenge scores its own kind of result, informative challenges and
/// placeholders score any result.
pub open spec fn result_matches(t: ChallengeTypeView, r: ChallengeResultView) -> bool {
    match (t, r) {
        (ChallengeTypeView::MultipleChoice(_), ChallengeResultView::MultipleChoice(_)) => true,
        (ChallengeTypeView::ContextualChoice(_), ChallengeResultView::ContextualChoice(_)) => true,
        (ChallengeTypeView::GapFill(_), ChallengeResultView::GapFill(_)) => true,
        (ChallengeTypeView::SortTable(_), ChallengeResultView::SortTable(_)) => true,
        (ChallengeTypeView::Informative(_), _) => true,
        (ChallengeTypeView::OrderingChallenge(_), ChallengeResultView::OrderingResults(_)) => true,
        (ChallengeTypeView::Custom(_), ChallengeResultView::Custom(_)) => true,
        (ChallengeTypeView::Placeholder(_), _) => true,
        _ => false,
    }
}

/// Scoring `r` against `t` neither meets a result of the wrong kind nor overflows.
pub open spec fn performance_defined(t: ChallengeTypeView, r: ChallengeResultView) -> bool {
    result_matches(t, r) && percent_fits(score(t, r), task_total(t))
}

/// The performance, in percent: the share of tasks answered correctly for
/// scored kinds, 100 for informative challenges, the reported score for
/// custom ones, 0 for placeholders.
pub open spec fn spec_performance(t: ChallengeTypeView, r: ChallengeResultView) -> int {
    match (t, r) {
        (ChallengeTypeView::Informative(_), _) => 100,
        (ChallengeTypeView::Custom(_), ChallengeResultView::Custom(c)) => c.score as int,
        (ChallengeTypeView::Placeholder(_), _) => 0,
        _ => percent(score(t, r), task_total(t)),
    }
}

/// Whether every answered gap of `item` picks its correct option.
pub fn choices_correct(item: &ContextItem, answers: &ContextItemChoiceAnswers) -> (r: bool)
    ensures
        r == item_correct(item@, answers@),
{
    let n = if item.choices.len() < answers.ids.len() { item.choices.len() } else { answers.ids.len() };
    let mut j: usize = 0;
    while j < n
        invariant
            n == min_nat(item@.choices.len() as int, answers@.ids.len() as int),
            j <= n,
            forall|k: int| 0 <= k < j ==> #[trigger] choice_correct(item@.choices[k], answers@.ids[k]),
        decreases n - j,
    {
        let c = &item.choices[j];
        let id = answers.ids[j];
        let ok = id < c.options.len() && c.options[id].equals(&c.correct_answer);
        assert(ok == choice_correct(item@.choices[j as int], answers@.ids[j as int]));
        if !ok {
            return false;
        }
        j = j + 1;
    }
    true
}

/// Whether every answered gap of `q` is answered with its correct word.
pub fn gap_answers_correct(q: &GapFillQuestion, a: &GapFillAnswer) -> (r: bool)
    ensures
        r == gaps_correct(q@, a@),
{
    let n = if q.gaps.len() < a.answers.len() { q.gaps.len() } else { a.answers.len() };
    let mut j: usize = 0;
    while j < n
        invariant
            n == min_nat(q@.gaps.len() as int, a@.answers.len() as int),
            j <= n,
            forall|k: int| 0 <= k < j ==> #[trigger] q@.gaps[k].correct == a@.answers[k],
        decreases n - j,
    {
        if !q.gaps[j].correct.equals(&a.answers[j]) {
            assert(q@.gaps[j as int].correct != a@.answers[j as int]);
            return false;
        }
        j = j + 1;
    }
    true
}

/// `100 * score / total` with `total` counted as a `u32`, or 0 without tasks.
fn percent_of(score: u64, total: usize) -> (r: u32)
    requires
        percent_fits(score as nat, total as nat),
    ensures
        r == percent(score as nat, total as nat),
{
    if total == 0 {
        return 0;
    }
    #[verifier::truncate]
    let t: u32 = total as u32;
    let s: u32 = score as u32;
    (100 * s) / t
}

/// The positions `0..100` a custom challenge draws its task ids from.
pub open spec fn custom_task_positions() -> Seq<usize> {
    Seq::new(100, |i: int| i as usize)
}

/// `pattern` can select tasks from this challenge type without panicking.
pub open spec fn tasks_selectable(t: ChallengeTypeView, pattern: TaskPatternModel) -> bool {
    match t {
        ChallengeTypeView::MultipleChoice(d) => selectable(pattern, d.questions.len() as usize),
        ChallengeTypeView::ContextualChoice(d) => selectable(pattern, d.items.len() as usize),
        ChallengeTypeView::GapFill(d) => selectable(pattern, d.questions.len() as usize),
        ChallengeTypeView::SortTable(d) => selectable(pattern, d.rows.len() as usize),
        ChallengeTypeView::Custom(_) => selectable(pattern, 100),
        _ => true,
    }
}

/// `r` is `t` with its tasks narrowed to a selection by `pattern`: the
/// questions, items or rows of scored kinds; the task ids, drawn from
/// `0..100`, of a custom challenge; nothing of the other kinds.
pub open spec fn tasks_of(t: ChallengeTypeView, pattern: TaskPatternModel, r: ChallengeTypeView) -> bool {
    match (t, r) {
        (ChallengeTypeView::MultipleChoice(d), ChallengeTypeView::MultipleChoice(n)) => {
            &&& n.id == d.id && n.name == d.name && n.lang == d.lang && n.options == d.options
            &&& selection(pattern, d.questions, n.questions)
        },
        (ChallengeTypeView::ContextualChoice(d), ChallengeTypeView::ContextualChoice(n)) => {
            &&& n.id == d.id && n.name == d.name && n.description == d.description
            &&& selection(pattern, d.items, n.items)
        },
        (ChallengeTypeView::GapFill(d), ChallengeTypeView::GapFill(n)) => {
            &&& n.id == d.id && n.name == d.name && n.description == d.description && n.lang == d.lang
            &&& selection(pattern, d.questions, n.questions)
        },
        (ChallengeTypeView::SortTable(d), ChallengeTypeView::SortTable(n)) => {
            &&& n.id == d.id && n.name == d.name && n.description == d.description
            &&& n.columns == d.columns
            &&& selection(pattern, d.rows, n.rows)
        },
        (ChallengeTypeView::Informative(d), ChallengeTypeView::Informative(n)) => n == d,
        (ChallengeTypeView::OrderingChallenge(d), ChallengeTypeView::OrderingChallenge(n)) => n == d,
        (ChallengeTypeView::Custom(d), ChallengeTypeView::Custom(n)) => {
            &&& n.id == d.id && n.name == d.name && n.description == d.description
            &&& n.html == d.html && n.results_html == d.results_html && n.css == d.css
            &&& n.js == d.js && n.i18n == d.i18n && n.data == d.data && n.package_url == d.package_url
            &&& n.task_ids matches Some(ids) && selection(pattern, custom_task_positions(), ids)
        },
        (ChallengeTypeView::Placeholder(d), ChallengeTypeView::Placeholder(n)) => n == d,
        _ => false,
    }
}

/// The selection by `pattern` from `items`, stated over the items' values.
fn select_tasks<T: Clone + DeepView>(pattern: &TaskPattern, items: &Vec<T>) -> (r: Vec<T>)
    requires
        selectable(pattern@, items@.len() as usize),
        forall|a: T, b: T| cloned(a, b) ==> b.deep_view() == a.deep_view(),
    ensures
        selection(pattern@, items.deep_view(), r.deep_view()),
{
    let r = pattern.select_items(items.as_slice());
    proof {
        let iv = items.deep_view();
        let rv = r.deep_view();
        match pattern@ {
            TaskPatternModel::Exact(n) => {
                assert(rv =~= iv.take(min_nat(n as int, iv.len() as int)));
            },
            TaskPatternModel::Range(rg) => {
                assert(rv =~= iv.subrange(clamped_start(rg), clamped_end(rg, iv.len() as usize) + 1));
            },
            TaskPatternModel::Random(n, rg) => {
                let (s, e) = random_bounds(rg, items@.len() as usize);
                let idx = choose|idx: Seq<int>|
                    #![trigger idx.len()]
                    idx.len() == r@.len()
                    && (forall|k: int| 0 <= k < idx.len() ==> s <= #[trigger] idx[k] <= e)
                    && (forall|k1: int, k2: int| 0 <= k1 < idx.len() && 0 <= k2 < idx.len() && k1 != k2 ==> idx[k1] != idx[k2])
                    && (forall|k: int| 0 <= k < idx.len() ==> cloned(items@[#[trigger] idx[k]], r@[k]));
                assert(forall|k: int| 0 <= k < idx.len() ==> rv[k] == iv[#[trigger] idx[k]]);
                assert(idx.len() == rv.len());
            },
        }
    }
    r
}

/// The task ids `0..100` of a custom challenge.
fn custom_task_ids() -> (r: Vec<usize>)
    ensures
        r@ == custom_task_positions(),
{
    let mut r: Vec<usize> = Vec::new();
    let mut i: usize = 0;
    while i < 100
        invariant
            i <= 100,
            r@ =~= Seq::new(i as nat, |k: int| k as usize),
        decreases 100 - i,
    {
        r.push(i);
        i = i + 1;
    }
    r
}

impl ChallengeType {
    /// Whether `task_pattern` can select tasks of this challenge without panicking.
    pub fn can_select(&self, task_pattern: &TaskPattern) -> (r: bool)
        ensures
            r == tasks_selectable(self@, task_pattern@),
    {
        match self {
            ChallengeType::MultipleChoice(d) => task_pattern.is_selectable(d.questions.len()),
            ChallengeType::ContextualChoice(d) => task_pattern.is_selectable(d.items.len()),
            ChallengeType::GapFill(d) => task_pattern.is_selectable(d.questions.len()),
            ChallengeType::SortTable(d) => task_pattern.is_selectable(d.rows.len()),
            ChallengeType::Custom(_) => task_pattern.is_selectable(100),
            _ => true,
        }
    }

    /// The challenge with its tasks narrowed to those `task_pattern` selects.
    pub fn of_tasks(&self, task_pattern: &TaskPattern) -> (r: ChallengeType)
        requires
            tasks_selectable(self@, task_pattern@),
        ensures
            tasks_of(self@, task_pattern@, r@),
    {
        match self {
            ChallengeType::MultipleChoice(dataset) => {
                let selected = select_tasks(task_pattern, &dataset.questions);
                let mut new_dataset = dataset.clone();
                new_dataset.questions = selected;
                ChallengeType::MultipleChoice(new_dataset)
            },
            ChallengeType::ContextualChoice(dataset) => {
                let selected = select_tasks(task_pattern, &dataset.items);
                let mut new_dataset = dataset.clone();
                new_dataset.items = selected;
                ChallengeType::ContextualChoice(new_dataset)
            },
            ChallengeType::GapFill(dataset) => {
                let selected = select_tasks(task_pattern, &dataset.questions);
                let mut new_dataset = dataset.clone();
                new_dataset.questions = selected;
                ChallengeType::GapFill(new_dataset)
            },
            ChallengeType::SortTable(dataset) => {
                let selected = select_tasks(task_pattern, &dataset.rows);
                let mut new_dataset = dataset.clone();
                new_dataset.rows = selected;
                ChallengeType::SortTable(new_dataset)
            },
            ChallengeType::Informative(dataset) => ChallengeType::Informative(dataset.clone()),
            ChallengeType::OrderingChallenge(dataset) => ChallengeType::OrderingChallenge(dataset.clone()),
            ChallengeType::Custom(dataset) => {
                let mut new_dataset = dataset.clone();
                let ids = custom_task_ids();
                assert(ids.deep_view() =~= ids@);
                let task_ids = select_tasks(task_pattern, &ids);
                new_dataset.task_ids = Some(task_ids);
                assert(new_dataset.task_ids.deep_view() == Some(task_ids.deep_view()));
                ChallengeType::Custom(new_dataset)
            },
            ChallengeType::Placeholder(dataset) => ChallengeType::Placeholder(dataset.clone()),
        }
    }

    /// The display name.
    pub fn name(&self) -> (r: &str)
        ensures
            r@ == challenge_name(self@),
    {
        match self {
            ChallengeType::MultipleChoice(d) => d.name.as_str(),
            ChallengeType::ContextualChoice(d) => d.name.as_str(),
            ChallengeType::SortTable(d) => d.name.as_str(),
            ChallengeType::GapFill(d) => d.name.as_str(),
            ChallengeType::Informative(d) => d.name.as_str(),
            ChallengeType::OrderingChallenge(d) => d.name.as_str(),
            ChallengeType::Custom(d) => d.name.as_str(),
            ChallengeType::Placeholder(d) => d.name.as_str(),
        }
    }

    /// The id.
    pub fn id(&self) -> (r: &str)
        ensures
            r@ == type_id(self@),
    {
        match self {
            ChallengeType::MultipleChoice(d) => d.id.as_str(),
            ChallengeType::ContextualChoice(d) => d.id.as_str(),
            ChallengeType::GapFill(d) => d.id.as_str(),
            ChallengeType::SortTable(d) => d.id.as_str(),
            ChallengeType::Informative(d) => d.id.as_str(),
            ChallengeType::OrderingChallenge(d) => d.id.as_str(),
            ChallengeType::Custom(d) => d.id.as_str(),
            ChallengeType::Placeholder(d) => d.id.as_str(),
        }
    }

    /// The kebab-case key of the kind.
    pub fn key(&self) -> (r: &'static str)
        ensures
            r@ == type_key(self@),
    {
        match self {
            ChallengeType::MultipleChoice(_) => "multiple-choice",
            ChallengeType::ContextualChoice(_) => "contextual-choice",
            ChallengeType::GapFill(_) => "gap-fill",
            ChallengeType::SortTable(_) => "sort-table",
            ChallengeType::Informative(_) => "informative",
            ChallengeType::OrderingChallenge(_) => "ordering",
            ChallengeType::Custom(_) => "custom",
            ChallengeType::Placeholder(_) => "placeholder",
        }
    }

}

/// The kinds of a scored challenge and of its result match.
pub open spec fn scored_kinds(t: ChallengeTypeView, r: ChallengeResultView) -> bool {
    match (t, r) {
        (ChallengeTypeView::MultipleChoice(_), ChallengeResultView::MultipleChoice(_)) => true,
        (ChallengeTypeView::ContextualChoice(_), ChallengeResultView::ContextualChoice(_)) => true,
        (ChallengeTypeView::GapFill(_), ChallengeResultView::GapFill(_)) => true,
        (ChallengeTypeView::SortTable(_), ChallengeResultView::SortTable(_)) => true,
        (ChallengeTypeView::OrderingChallenge(_), ChallengeResultView::OrderingResults(_)) => true,
        _ => false,
    }
}

/// The tasks of a scored kind that `result` answers correctly, and the
/// number of tasks.
fn scored(t: &ChallengeType, result: &ChallengeResult) -> (r: (u64, usize))
    requires
        scored_kinds(t@, result@),
    ensures
        r.0 == score(t@, result@),
        r.1 == task_total(t@),
{
    match (t, result) {
        (ChallengeType::MultipleChoice(dataset), ChallengeResult::MultipleChoice(options)) => {
            let n = if dataset.questions.len() < options.len() { dataset.questions.len() } else { options.len() };
            let ghost p = |i: int| dataset@.questions[i].option == options.deep_view()[i].id;
            let mut s: u64 = 0;
            let mut i: usize = 0;
            while i < n
                invariant
                    n == min_nat(dataset@.questions.len() as int, options.deep_view().len() as int),
                    i <= n,
                    s == count_true(i as nat, p),
                    s <= i,
                    forall|k: int| #[trigger] p(k) == (dataset@.questions[k].option == options.deep_view()[k].id),
                decreases n - i,
            {
                if dataset.questions[i].option == options[i].id {
                    s = s + 1;
                }
                i = i + 1;
            }
            (s, dataset.questions.len())
        },
        (ChallengeType::ContextualChoice(dataset), ChallengeResult::ContextualChoice(choices)) => {
            let n = if dataset.items.len() < choices.len() { dataset.items.len() } else { choices.len() };
            let ghost p = |i: int| item_correct(dataset@.items[i], choices.deep_view()[i]);
            let mut s: u64 = 0;
            let mut i: usize = 0;
            while i < n
                invariant
                    n == min_nat(dataset@.items.len() as int, choices.deep_view().len() as int),
                    i <= n,
                    s == count_true(i as nat, p),
                    s <= i,
                    forall|k: int| #[trigger] p(k) == (item_correct(dataset@.items[k], choices.deep_view()[k])),
                decreases n - i,
            {
                if choices_correct(&dataset.items[i], &choices[i]) {
                    s = s + 1;
                }
                i = i + 1;
            }
            (s, dataset.items.len())
        },
        (ChallengeType::GapFill(dataset), ChallengeResult::GapFill(answers)) => {
            let n = if dataset.questions.len() < answers.len() { dataset.questions.len() } else { answers.len() };
            let ghost p = |i: int| gaps_correct(dataset@.questions[i], answers.deep_view()[i]);
            let mut s: u64 = 0;
            let mut i: usize = 0;
            while i < n
                invariant
                    n == min_nat(dataset@.questions.len() as int, answers.deep_view().len() as int),
                    i <= n,
                    s == count_true(i as nat, p),
                    s <= i,
                    forall|k: int| #[trigger] p(k) == (gaps_correct(dataset@.questions[k], answers.deep_view()[k])),
                decreases n - i,
            {
                if gap_answers_correct(&dataset.questions[i], &answers[i]) {
                    s = s + 1;
                }
                i = i + 1;
            }
            (s, dataset.questions.len())
        },
        (ChallengeType::SortTable(dataset), ChallengeResult::SortTable(rows)) => {
            let n = if dataset.rows.len() < rows.len() { dataset.rows.len() } else { rows.len() };
            let ghost p = |i: int| dataset@.rows[i].values == rows.deep_view()[i].values;
            let mut s: u64 = 0;
            let mut i: usize = 0;
            while i < n
                invariant
                    n == min_nat(dataset@.rows.len() as int, rows.deep_view().len() as int),
                    i <= n,
                    s == count_true(i as nat, p),
                    s <= i,
                    forall|k: int| #[trigger] p(k) == (dataset@.rows[k].values == rows.deep_view()[k].values),
                decreases n - i,
            {
                if dataset.rows[i].values.equals(&rows[i].values) {
                    s = s + 1;
                }
                i = i + 1;
            }
            (s, dataset.rows.len())
        },
        (ChallengeType::OrderingChallenge(dataset), ChallengeResult::OrderingResults(results)) => {
            let n = if dataset.items.len() < results.len() { dataset.items.len() } else { results.len() };
            let ghost p = |i: int| dataset@.items[i].correct_order == results.deep_view()[i].order;
            let mut s: u64 = 0;
            let mut i: usize = 0;
            while i < n
                invariant
                    n == min_nat(dataset@.items.len() as int, results.deep_view().len() as int),
                    i <= n,
                    s == count_true(i as nat, p),
                    s <= i,
                    forall|k: int| #[trigger] p(k) == (dataset@.items[k].correct_order == results.deep_view()[k].order),
                decreases n - i,
            {
                if dataset.items[i].correct_order.equals(&results[i].order) {
                    s = s + 1;
                }
                i = i + 1;
            }
            (s, dataset.items.len())
        },
        _ => {
            assert(false);
            (0, 0)
        },
    }
}

impl ChallengeType {
    /// The performance of `result`, in percent, where it can be scored;
    /// `None` for a result of another kind than the challenge, or one
    /// whose percentage would overflow.
    pub fn checked_performance(&self, result: &ChallengeResult) -> (r: Option<u32>)
        ensures
            match r {
                Some(p) => performance_defined(self@, result@) && p == spec_performance(self@, result@),
                None => !performance_defined(self@, result@),
            },
    {
        match (self, result) {
            (ChallengeType::Informative(_), _) => Some(100),
            (ChallengeType::Custom(_), ChallengeResult::Custom(result)) => Some(result.score),
            (ChallengeType::Placeholder(_), _) => Some(0),
            (ChallengeType::MultipleChoice(_), ChallengeResult::MultipleChoice(_))
            | (ChallengeType::ContextualChoice(_), ChallengeResult::ContextualChoice(_))
            | (ChallengeType::GapFill(_), ChallengeResult::GapFill(_))
            | (ChallengeType::SortTable(_), ChallengeResult::SortTable(_))
            | (ChallengeType::OrderingChallenge(_), ChallengeResult::OrderingResults(_)) => {
                let (s, total) = scored(self, result);
                if total == 0 {
                    return Some(0);
                }
                #[verifier::truncate]
                let t: u32 = total as u32;
                if t == 0 || s > (u32::MAX / 100) as u64 {
                    return None;
                }
                Some(percent_of(s, total))
            },
            _ => None,
        }
    }
}

impl Performance for ChallengeType {
    open spec fn can_score(&self, result: ChallengeResultView) -> bool {
        performance_defined(self@, result)
    }

    open spec fn performance_of(&self, result: ChallengeResultView) -> int {
        spec_performance(self@, result)
    }

    fn performance(&self, result: &ChallengeResult) -> (r: u32) {
        match (self, result) {
            (ChallengeType::Informative(_), _) => 100,
            (ChallengeType::Custom(_), ChallengeResult::Custom(result)) => result.score,
            (ChallengeType::Placeholder(_), _) => 0,
            _ => {
                let (s, total) = scored(self, result);
                percent_of(s, total)
            },
        }
    }
}

impl Default for ChallengeType {
    /// The built-in multiple-choice challenge on German connectors.
    fn default() -> (r: ChallengeType)
        ensures
            r@ matches ChallengeTypeView::MultipleChoice(d) && konnektoren_shape(d),
    {
        ChallengeType::MultipleChoice(konnektoren())
    }
}

/// The keys of the kinds of challenge, in declaration order.
pub open spec fn challenge_type_keys() -> Seq<Seq<char>> {
    seq![
        "multiple-choice"@,
        "contextual-choice"@,
        "gap-fill"@,
        "sort-table"@,
        "informative"@,
        "ordering"@,
        "custom"@,
        "placeholder"@,
    ]
}

impl ChallengeType {
    /// One challenge of each kind, in declaration order, each holding the
    /// default data of its kind.
    pub fn iter() -> (r: Vec<ChallengeType>)
        ensures
            r@.len() == 8,
            forall|i: int| 0 <= i < 8 ==> type_key(#[trigger] r@[i]@) == challenge_type_keys()[i],
    {
        let mut r: Vec<ChallengeType> = Vec::new();
        r.push(ChallengeType::MultipleChoice(MultipleChoice::default()));
        r.push(ChallengeType::ContextualChoice(ContextualChoice::default()));
        r.push(ChallengeType::GapFill(GapFill::default()));
        r.push(ChallengeType::SortTable(SortTable::default()));
        r.push(ChallengeType::Informative(Informative::default()));
        r.push(ChallengeType::OrderingChallenge(OrderingChallenge::default()));
        r.push(ChallengeType::Custom(Custom::default()));
        r.push(ChallengeType::Placeholder(Placeholder::default()));
        r
    }
}

impl From<ChallengeType> for &'static str {
    /// The key of the challenge's kind.
    fn from(t: ChallengeType) -> (r: &'static str)
        ensures
            r@ == type_key(t@),
    {
        match t {
            ChallengeType::MultipleChoice(_) => "multiple-choice",
            ChallengeType::ContextualChoice(_) => "contextual-choice",
            ChallengeType::GapFill(_) => "gap-fill",
            ChallengeType::SortTable(_) => "sort-table",
            ChallengeType::Informative(_) => "informative",
            ChallengeType::OrderingChallenge(_) => "ordering",
            ChallengeType::Custom(_) => "custom",
            ChallengeType::Placeholder(_) => "placeholder",
        }
    }
}

} // verus!

verus! {

impl vstd::std_specs::convert::FromSpecImpl<ChallengeType> for &'static str {
    open spec fn obeys_from_spec() -> bool {
        true
    }

    open spec fn from_spec(t: ChallengeType) -> &'static str {
        match t {
            ChallengeType::MultipleChoice(_) => "multiple-choice",
            ChallengeType::ContextualChoice(_) => "contextual-choice",
            ChallengeType::GapFill(_) => "gap-fill",
            ChallengeType::SortTable(_) => "sort-table",
            ChallengeType::Informative(_) => "informative",
            ChallengeType::OrderingChallenge(_) => "ordering",
            ChallengeType::Custom(_) => "custom",
            ChallengeType::Placeholder(_) => "placeholder",
        }
    }
}

/// Every scored kind of challenge scores at most 100 %: a result can solve
/// no more tasks than there are (where the number of tasks fits in a `u32`,
/// as the division counts it).
pub proof fn lemma_performance_at_most_100(t: ChallengeTypeView, r: ChallengeResultView)
    requires
        performance_defined(t, r),
        !(t is Custom),
        task_total(t) <= u32::MAX,
    ensures
        0 <= spec_performance(t, r) <= 100,
{
    let total = task_total(t);
    let s = score(t, r);
    match (t, r) {
        (ChallengeTypeView::MultipleChoice(d), ChallengeResultView::MultipleChoice(o)) => {
            lemma_count_true_bound(min_nat(d.questions.len() as int, o.len() as int) as nat, |i: int| d.questions[i].option == o[i].id);
        },
        (ChallengeTypeView::ContextualChoice(d), ChallengeResultView::ContextualChoice(c)) => {
            lemma_count_true_bound(min_nat(d.items.len() as int, c.len() as int) as nat, |i: int| item_correct(d.items[i], c[i]));
        },
        (ChallengeTypeView::GapFill(d), ChallengeResultView::GapFill(a)) => {
            lemma_count_true_bound(min_nat(d.questions.len() as int, a.len() as int) as nat, |i: int| gaps_correct(d.questions[i], a[i]));
        },
        (ChallengeTypeView::SortTable(d), ChallengeResultView::SortTable(rows)) => {
            lemma_count_true_bound(min_nat(d.rows.len() as int, rows.len() as int) as nat, |i: int| d.rows[i].values == rows[i].values);
        },
        (ChallengeTypeView::OrderingChallenge(d), ChallengeResultView::OrderingResults(res)) => {
            lemma_count_true_bound(min_nat(d.items.len() as int, res.len() as int) as nat, |i: int| d.items[i].correct_order == res[i].order);
        },
        _ => {},
    }
    if total > 0 && !(t is Informative) && !(t is Placeholder) {
        assert(s <= total);
        assert((total as u32) as int == total);
        assert(0 <= (100 * s) / total <= 100) by (nonlinear_arith)
            requires
                s <= total,
                total > 0,
        ;
    }
}


/// A sentence of a contextual choice counts as correct only when every gap
/// that has an answer picks an option that exists and is that gap's correct
/// answer; when all of them do, it counts.
pub proof fn lemma_sentence_correct_only_with_every_choice_right(item: ContextItemView, answers: ContextItemChoiceAnswersView)
    ensures
        item_correct(item, answers) ==> forall|j: int| #![trigger item.choices[j], answers.ids[j]]
            0 <= j < item.choices.len() && 0 <= j < answers.ids.len() ==> {
                &&& answers.ids[j] < item.choices[j].options.len()
                &&& item.choices[j].options[answers.ids[j] as int] == item.choices[j].correct_answer
            },
        (forall|j: int| #![trigger item.choices[j], answers.ids[j]]
            0 <= j < item.choices.len() && 0 <= j < answers.ids.len() ==> {
                &&& answers.ids[j] < item.choices[j].options.len()
                &&& item.choices[j].options[answers.ids[j] as int] == item.choices[j].correct_answer
            }) ==> item_correct(item, answers),
{
    if item_correct(item, answers) {
        assert forall|j: int| #![trigger item.choices[j], answers.ids[j]] 0 <= j < item.choices.len() && 0 <= j < answers.ids.len() implies {
            &&& answers.ids[j] < item.choices[j].options.len()
            &&& item.choices[j].options[answers.ids[j] as int] == item.choices[j].correct_answer
        } by {
            assert(choice_correct(item.choices[j], answers.ids[j]));
        }
    }
    if forall|j: int| #![trigger item.choices[j], answers.ids[j]]
        0 <= j < item.choices.len() && 0 <= j < answers.ids.len() ==> {
            &&& answers.ids[j] < item.choices[j].options.len()
            &&& item.choices[j].options[answers.ids[j] as int] == item.choices[j].correct_answer
        } {
        assert forall|j: int| 0 <= j < min_nat(item.choices.len() as int, answers.ids.len() as int)
            implies #[trigger] choice_correct(item.choices[j], answers.ids[j]) by {
            assert(item.choices[j].options[answers.ids[j] as int] == item.choices[j].correct_answer);
        }
    }
}

/// One answered gap of a sentence that picks a wrong or missing option keeps
/// the whole sentence from counting, whatever the other gaps hold.
pub proof fn lemma_one_wrong_choice_fails_sentence(item: ContextItemView, answers: ContextItemChoiceAnswersView, j: int)
    requires
        0 <= j < item.choices.len(),
        0 <= j < answers.ids.len(),
        !(answers.ids[j] < item.choices[j].options.len()
            && item.choices[j].options[answers.ids[j] as int] == item.choices[j].correct_answer),
    ensures
        !item_correct(item, answers),
{
    lemma_sentence_correct_only_with_every_choice_right(item, answers);
}

/// A gap-fill question counts as answered correctly only when every gap
/// that has an answer holds that gap's correct word, and it counts when all do.
pub proof fn lemma_question_correct_only_with_every_gap_right(q: GapFillQuestionView, a: GapFillAnswerView)
    ensures
        gaps_correct(q, a) <==> forall|j: int| #![trigger q.gaps[j], a.answers[j]] 0 <= j < q.gaps.len() && 0 <= j < a.answers.len()
            ==> a.answers[j] == q.gaps[j].correct,
{
    if gaps_correct(q, a) {
        assert forall|j: int| #![trigger q.gaps[j], a.answers[j]] 0 <= j < q.gaps.len() && 0 <= j < a.answers.len()
            implies a.answers[j] == q.gaps[j].correct by {
            assert(q.gaps[j].correct == a.answers[j]);
        }
    }
    if forall|j: int| #![trigger q.gaps[j], a.answers[j]] 0 <= j < q.gaps.len() && 0 <= j < a.answers.len() ==> a.answers[j] == q.gaps[j].correct {
        assert forall|j: int| 0 <= j < min_nat(q.gaps.len() as int, a.answers.len() as int)
            implies #[trigger] q.gaps[j].correct == a.answers[j] by {
            assert(a.answers[j] == q.gaps[j].correct);
        }
    }
}


/// The challenge type is scored by the share of its tasks answered right.
pub open spec fn scored_kind(t: ChallengeTypeView) -> bool {
    t is MultipleChoice || t is ContextualChoice || t is GapFill || t is SortTable || t is OrderingChallenge
}

/// Task `i` of `t` has an answer in `r`, and it is right: the chosen option
/// is the question's; every answered gap of the sentence picks an existing
/// option equal to the gap's correct answer; every answered gap holds the
/// gap's correct word; the row holds the table row's values; the order is
/// the item's correct order.
pub open spec fn answered_right(t: ChallengeTypeView, r: ChallengeResultView, i: int) -> bool {
    match (t, r) {
        (ChallengeTypeView::MultipleChoice(d), ChallengeResultView::MultipleChoice(o)) =>
            i < o.len() && o[i].id == d.questions[i].option,
        (ChallengeTypeView::ContextualChoice(d), ChallengeResultView::ContextualChoice(c)) =>
            i < c.len() && forall|j: int| #![trigger d.items[i].choices[j], c[i].ids[j]]
                0 <= j < d.items[i].choices.len() && 0 <= j < c[i].ids.len() ==> {
                    &&& c[i].ids[j] < d.items[i].choices[j].options.len()
                    &&& d.items[i].choices[j].options[c[i].ids[j] as int] == d.items[i].choices[j].correct_answer
                },
        (ChallengeTypeView::GapFill(d), ChallengeResultView::GapFill(a)) =>
            i < a.len() && forall|j: int| #![trigger d.questions[i].gaps[j], a[i].answers[j]]
                0 <= j < d.questions[i].gaps.len() && 0 <= j < a[i].answers.len()
                ==> a[i].answers[j] == d.questions[i].gaps[j].correct,
        (ChallengeTypeView::SortTable(d), ChallengeResultView::SortTable(rows)) =>
            i < rows.len() && rows[i].values == d.rows[i].values,
        (ChallengeTypeView::OrderingChallenge(d), ChallengeResultView::OrderingResults(res)) =>
            i < res.len() && res[i].order == d.items[i].correct_order,
        _ => false,
    }
}

proof fn lemma_count_true_all_or_none(n: nat, p: spec_fn(int) -> bool)
    ensures
        (forall|i: int| 0 <= i < n ==> #[trigger] p(i)) ==> count_true(n, p) == n,
        (forall|i: int| 0 <= i < n ==> !#[trigger] p(i)) ==> count_true(n, p) == 0,
    decreases n,
{
    if n > 0 {
        lemma_count_true_all_or_none((n - 1) as nat, p);
    }
}

/// A scored challenge whose every task is answered right scores 100, and
/// one whose every task is unanswered or answered wrong scores 0.
pub proof fn lemma_performance_all_right_or_all_wrong(t: ChallengeTypeView, r: ChallengeResultView)
    requires
        performance_defined(t, r),
        scored_kind(t),
        task_total(t) > 0,
    ensures
        (forall|i: int| 0 <= i < task_total(t) ==> #[trigger] answered_right(t, r, i)) ==> spec_performance(t, r) == 100,
        (forall|i: int| 0 <= i < task_total(t) ==> !#[trigger] answered_right(t, r, i)) ==> spec_performance(t, r) == 0,
{
    let total = task_total(t);
    let m: nat;
    let p: spec_fn(int) -> bool;
    match (t, r) {
        (ChallengeTypeView::MultipleChoice(d), ChallengeResultView::MultipleChoice(o)) => {
            m = min_nat(d.questions.len() as int, o.len() as int) as nat;
            p = |i: int| d.questions[i].option == o[i].id;
        },
        (ChallengeTypeView::ContextualChoice(d), ChallengeResultView::ContextualChoice(c)) => {
            m = min_nat(d.items.len() as int, c.len() as int) as nat;
            p = |i: int| item_correct(d.items[i], c[i]);
            assert forall|i: int| 0 <= i < m implies #[trigger] p(i) == answered_right(t, r, i) by {
                lemma_sentence_correct_only_with_every_choice_right(d.items[i], c[i]);
            }
        },
        (ChallengeTypeView::GapFill(d), ChallengeResultView::GapFill(a)) => {
            m = min_nat(d.questions.len() as int, a.len() as int) as nat;
            p = |i: int| gaps_correct(d.questions[i], a[i]);
            assert forall|i: int| 0 <= i < m implies #[trigger] p(i) == answered_right(t, r, i) by {
                lemma_question_correct_only_with_every_gap_right(d.questions[i], a[i]);
            }
        },
        (ChallengeTypeView::SortTable(d), ChallengeResultView::SortTable(rows)) => {
            m = min_nat(d.rows.len() as int, rows.len() as int) as nat;
            p = |i: int| d.rows[i].values == rows[i].values;
        },
        (ChallengeTypeView::OrderingChallenge(d), ChallengeResultView::OrderingResults(res)) => {
            m = min_nat(d.items.len() as int, res.len() as int) as nat;
            p = |i: int| d.items[i].correct_order == res[i].order;
        },
        _ => {
            return;
        },
    }
    assert(score(t, r) == count_true(m, p));
    assert forall|i: int| 0 <= i < m implies #[trigger] p(i) == answered_right(t, r, i) by {}
    lemma_count_true_all_or_none(m, p);
    if forall|i: int| 0 <= i < total ==> #[trigger] answered_right(t, r, i) {
        assert(answered_right(t, r, total - 1));
        assert(m == total);
        assert forall|i: int| 0 <= i < m implies #[trigger] p(i) by {
            assert(answered_right(t, r, i));
        }
        assert(score(t, r) == total);
        assert((total as u32) as int == total);
        let tt = total as int;
        assert((100 * tt) / tt == 100) by (nonlinear_arith)
            requires
                tt > 0,
        ;
    }
    if forall|i: int| 0 <= i < total ==> !#[trigger] answered_right(t, r, i) {
        assert forall|i: int| 0 <= i < m implies !#[trigger] p(i) by {
            assert(!answered_right(t, r, i));
        }
        assert(score(t, r) == 0);
    }
}

} // verus!
