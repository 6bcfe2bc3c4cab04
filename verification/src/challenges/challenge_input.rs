//! What a player answers one task of a challenge with.

use super::contextual_choice::{ContextItemChoiceAnswers, ContextItemChoiceAnswersView};
use super::dialog::{DialogAnswer, DialogAnswerView};
use super::gap_fill::{GapFillAnswer, GapFillAnswerView};
use super::multiple_choice::{MultipleChoiceOption, MultipleChoiceOptionView};
use super::ordering::{OrderingResult, OrderingResultView};
use super::sort_table::{SortTableRow, SortTableRowView};
use vstd::prelude::*;

verus! {

/// A player's answer to one task.
#[derive(Debug, PartialEq)]
pub enum ChallengeInput {
    MultipleChoice(MultipleChoiceOption),
    ContextualChoice(ContextItemChoiceAnswers),
    GapFill(GapFillAnswer),
    SortTable(SortTableRow),
    OrderingResult(OrderingResult),
    Dialog(DialogAnswer),
}

/// The value of a [`ChallengeInput`].
pub enum ChallengeInputView {
    MultipleChoice(MultipleChoiceOptionView),
    ContextualChoice(ContextItemChoiceAnswersView),
    GapFill(GapFillAnswerView),
    SortTable(SortTableRowView),
    OrderingResult(OrderingResultView),
    Dialog(DialogAnswerView),
}

impl View for ChallengeInput {
    type V = ChallengeInputView;

    open spec fn view(&self) -> ChallengeInputView {
        match self {
            ChallengeInput::MultipleChoice(x) => ChallengeInputView::MultipleChoice(x@),
            ChallengeInput::ContextualChoice(x) => ChallengeInputView::ContextualChoice(x@),
            ChallengeInput::GapFill(x) => ChallengeInputView::GapFill(x@),
            ChallengeInput::SortTable(x) => ChallengeInputView::SortTable(x@),
            ChallengeInput::OrderingResult(x) => ChallengeInputView::OrderingResult(x@),
            ChallengeInput::Dialog(x) => ChallengeInputView::Dialog(x@),
        }
    }
}

impl Clone for ChallengeInput {
    fn clone(&self) -> (r: Self)
        ensures
            r@ == self@,
    {
        match self {
            ChallengeInput::MultipleChoice(x) => ChallengeInput::MultipleChoice(x.clone()),
            ChallengeInput::ContextualChoice(x) => ChallengeInput::ContextualChoice(x.clone()),
            ChallengeInput::GapFill(x) => ChallengeInput::GapFill(x.clone()),
            ChallengeInput::SortTable(x) => ChallengeInput::SortTable(x.clone()),
            ChallengeInput::OrderingResult(x) => ChallengeInput::OrderingResult(x.clone()),
            ChallengeInput::Dialog(x) => ChallengeInput::Dialog(x.clone()),
        }
    }
}

} // verus!
