//! Contextual-choice challenges: sentences whose gaps are filled by choosing
//! among options, each gap with one correct answer.

use crate::equality::Equals;
use vstd::prelude::*;

verus! {

/// A contextual-choice challenge.
#[derive(Debug, PartialEq)]
pub struct ContextualChoice {
    pub id: String,
    pub name: String,
    pub description: String,
    pub items: Vec<ContextItem>,
}

/// The value of a [`ContextualChoice`].
pub struct ContextualChoiceView {
    pub id: Seq<char>,
    pub name: Seq<char>,
    pub description: Seq<char>,
    pub items: Seq<ContextItemView>,
}

impl DeepView for ContextualChoice {
    type V = ContextualChoiceView;

    open spec fn deep_view(&self) -> ContextualChoiceView {
        ContextualChoiceView {
            id: self.id@,
            name: self.name@,
            description: self.description@,
            items: self.items.deep_view(),
        }
    }
}

impl View for ContextualChoice {
    type V = ContextualChoiceView;

    open spec fn view(&self) -> ContextualChoiceView {
        self.deep_view()
    }
}

impl Clone for ContextualChoice {
    fn clone(&self) -> (r: Self)
        ensures
            r@ == self@,
    {
        let id = self.id.clone();
        let name = self.name.clone();
        let description = self.description.clone();
        let items = self.items.clone();
        assert(items.deep_view() =~= self.items.deep_view());
        ContextualChoice { id, name, description, items }
    }
}

impl Equals for ContextualChoice {
    fn equals(&self, other: &Self) -> (r: bool) {
        self.id.equals(&other.id)
            && self.name.equals(&other.name)
            && self.description.equals(&other.description)
            && self.items.equals(&other.items)
    }
}

/// A sentence template with its gaps.
#[derive(Debug, PartialEq)]
pub struct ContextItem {
    pub template: String,
    pub choices: Vec<Choice>,
}

/// The value of a [`ContextItem`].
pub struct ContextItemView {
    pub template: Seq<char>,
    pub choices: Seq<ChoiceView>,
}

impl DeepView for ContextItem {
    type V = ContextItemView;

    open spec fn deep_view(&self) -> ContextItemView {
        ContextItemView {
            template: self.template@,
            choices: self.choices.deep_view(),
        }
    }
}

impl View for ContextItem {
    type V = ContextItemView;

    open spec fn view(&self) -> ContextItemView {
        self.deep_view()
    }
}

impl Clone for ContextItem {
    fn clone(&self) -> (r: Self)
        ensures
            r@ == self@,
    {
        let template = self.template.clone();
        let choices = self.choices.clone();
        assert(choices.deep_view() =~= self.choices.deep_view());
        ContextItem { template, choices }
    }
}

impl Equals for ContextItem {
    fn equals(&self, other: &Self) -> (r: bool) {
        self.template.equals(&other.template)
            && self.choices.equals(&other.choices)
    }
}

/// A gap of a sentence: its options and the correct answer.
#[derive(Debug, PartialEq)]
pub struct Choice {
    pub id: usize,
    pub options: Vec<String>,
    pub correct_answer: String,
}

/// The value of a [`Choice`].
pub struct ChoiceView {
    pub id: usize,
    pub options: Seq<Seq<char>>,
    pub correct_answer: Seq<char>,
}

impl DeepView for Choice {
    type V = ChoiceView;

    open spec fn deep_view(&self) -> ChoiceView {
        ChoiceView {
            id: self.id,
            options: self.options.deep_view(),
            correct_answer: self.correct_answer@,
        }
    }
}

impl View for Choice {
    type V = ChoiceView;

    open spec fn view(&self) -> ChoiceView {
        self.deep_view()
    }
}

impl Clone for Choice {
    fn clone(&self) -> (r: Self)
        ensures
            r@ == self@,
    {
        let id = self.id;
        let options = self.options.clone();
        assert(options.deep_view() =~= self.options.deep_view());
        let correct_answer = self.correct_answer.clone();
        Choice { id, options, correct_answer }
    }
}

impl Equals for Choice {
    fn equals(&self, other: &Self) -> (r: bool) {
        self.id == other.id
            && self.options.equals(&other.options)
            && self.correct_answer.equals(&other.correct_answer)
    }
}

/// The option chosen for each gap of one sentence, by position.
#[derive(Debug, PartialEq)]
pub struct ContextItemChoiceAnswers {
    pub ids: Vec<usize>,
}

/// The value of a [`ContextItemChoiceAnswers`].
pub struct ContextItemChoiceAnswersView {
    pub ids: Seq<usize>,
}

impl DeepView for ContextItemChoiceAnswers {
    type V = ContextItemChoiceAnswersView;

    open spec fn deep_view(&self) -> ContextItemChoiceAnswersView {
        ContextItemChoiceAnswersView {
            ids: self.ids.deep_view(),
        }
    }
}

impl View for ContextItemChoiceAnswers {
    type V = ContextItemChoiceAnswersView;

    open spec fn view(&self) -> ContextItemChoiceAnswersView {
        self.deep_view()
    }
}

impl Clone for ContextItemChoiceAnswers {
    fn clone(&self) -> (r: Self)
        ensures
            r@ == self@,
    {
        let ids = self.ids.clone();
        assert(ids.deep_view() =~= self.ids.deep_view());
        ContextItemChoiceAnswers { ids }
    }
}

impl Equals for ContextItemChoiceAnswers {
    fn equals(&self, other: &Self) -> (r: bool) {
        self.ids.equals(&other.ids)
    }
}
impl Default for ContextualChoice {
    /// A challenge with no id, name, description or items.
    fn default() -> (r: ContextualChoice)
        ensures
            r@.id.len() == 0 && r@.name.len() == 0 && r@.description.len() == 0,
            r@.items.len() == 0,
    {
        ContextualChoice { id: String::new(), name: String::new(), description: String::new(), items: Vec::new() }
    }
}

} // verus!
