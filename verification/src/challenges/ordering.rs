//! Ordering challenges: elements to be put in the correct order.

use crate::equality::Equals;
use vstd::prelude::*;

verus! {

/// An ordering challenge.
#[derive(Debug, PartialEq)]
pub struct OrderingChallenge {
    pub id: String,
    pub name: String,
    pub description: String,
    pub items: Vec<OrderingItem>,
}

/// The value of a [`OrderingChallenge`].
pub struct OrderingChallengeView {
    pub id: Seq<char>,
    pub name: Seq<char>,
    pub description: Seq<char>,
    pub items: Seq<OrderingItemView>,
}

impl DeepView for OrderingChallenge {
    type V = OrderingChallengeView;

    open spec fn deep_view(&self) -> OrderingChallengeView {
        OrderingChallengeView {
            id: self.id@,
            name: self.name@,
            description: self.description@,
            items: self.items.deep_view(),
        }
    }
}

impl View for OrderingChallenge {
    type V = OrderingChallengeView;

    open spec fn view(&self) -> OrderingChallengeView {
        self.deep_view()
    }
}

impl Clone for OrderingChallenge {
    fn clone(&self) -> (r: Self)
        ensures
            r@ == self@,
    {
        let id = self.id.clone();
        let name = self.name.clone();
        let description = self.description.clone();
        let items = self.items.clone();
        assert(items.deep_view() =~= self.items.deep_view());
        OrderingChallenge { id, name, description, items }
    }
}

impl Equals for OrderingChallenge {
    fn equals(&self, other: &Self) -> (r: bool) {
        self.id.equals(&other.id)
            && self.name.equals(&other.name)
            && self.description.equals(&other.description)
            && self.items.equals(&other.items)
    }
}

/// Elements and the order they belong in.
#[derive(Debug, PartialEq, Default)]
pub struct OrderingItem {
    pub elements: Vec<String>,
    pub correct_order: Vec<usize>,
}

/// The value of a [`OrderingItem`].
pub struct OrderingItemView {
    pub elements: Seq<Seq<char>>,
    pub correct_order: Seq<usize>,
}

impl DeepView for OrderingItem {
    type V = OrderingItemView;

    open spec fn deep_view(&self) -> OrderingItemView {
        OrderingItemView {
            elements: self.elements.deep_view(),
            correct_order: self.correct_order.deep_view(),
        }
    }
}

impl View for OrderingItem {
    type V = OrderingItemView;

    open spec fn view(&self) -> OrderingItemView {
        self.deep_view()
    }
}

impl Clone for OrderingItem {
    fn clone(&self) -> (r: Self)
        ensures
            r@ == self@,
    {
        let elements = self.elements.clone();
        assert(elements.deep_view() =~= self.elements.deep_view());
        let correct_order = self.correct_order.clone();
        assert(correct_order.deep_view() =~= self.correct_order.deep_view());
        OrderingItem { elements, correct_order }
    }
}

impl Equals for OrderingItem {
    fn equals(&self, other: &Self) -> (r: bool) {
        self.elements.equals(&other.elements)
            && self.correct_order.equals(&other.correct_order)
    }
}

/// The order a player put the elements of one item in.
#[derive(Debug, PartialEq, Default)]
pub struct OrderingResult {
    pub order: Vec<usize>,
}

/// The value of a [`OrderingResult`].
pub struct OrderingResultView {
    pub order: Seq<usize>,
}

impl DeepView for OrderingResult {
    type V = OrderingResultView;

    open spec fn deep_view(&self) -> OrderingResultView {
        OrderingResultView {
            order: self.order.deep_view(),
        }
    }
}

impl View for OrderingResult {
    type V = OrderingResultView;

    open spec fn view(&self) -> OrderingResultView {
        self.deep_view()
    }
}

impl Clone for OrderingResult {
    fn clone(&self) -> (r: Self)
        ensures
            r@ == self@,
    {
        let order = self.order.clone();
        assert(order.deep_view() =~= self.order.deep_view());
        OrderingResult { order }
    }
}

impl Equals for OrderingResult {
    fn equals(&self, other: &Self) -> (r: bool) {
        self.order.equals(&other.order)
    }
}
impl Default for OrderingChallenge {
    /// A challenge with no id, name, description or items.
    fn default() -> (r: OrderingChallenge)
        ensures
            r@.id.len() == 0 && r@.name.len() == 0 && r@.description.len() == 0,
            r@.items.len() == 0,
    {
        OrderingChallenge { id: String::new(), name: String::new(), description: String::new(), items: Vec::new() }
    }
}

/// Words to be put in order, with the order that is correct.
fn ordering_item(words: &[&str], order: &[usize]) -> (r: OrderingItem)
    ensures
        r@.elements.len() == words@.len(),
        r@.correct_order == order@,
{
    let mut elements: Vec<String> = Vec::new();
    let mut i: usize = 0;
    while i < words.len()
        invariant
            i <= words@.len(),
            elements@.len() == i,
        decreases words@.len() - i,
    {
        elements.push(words[i].to_string());
        i = i + 1;
    }
    let mut correct_order: Vec<usize> = Vec::new();
    let mut j: usize = 0;
    while j < order.len()
        invariant
            j <= order@.len(),
            correct_order@ == order@.take(j as int),
        decreases order@.len() - j,
    {
        correct_order.push(order[j]);
        assert(order@.take(j + 1) =~= order@.take(j as int).push(order@[j as int]));
        j = j + 1;
    }
    assert(order@.take(j as int) =~= order@);
    let r = OrderingItem { elements, correct_order };
    assert(r@.correct_order =~= order@);
    r
}

/// The built-in challenge on German word order: two sentences whose words
/// are to be put in order.
pub fn sentence_structure() -> (r: OrderingChallenge)
    ensures
        r@.id == "sentence-structure"@,
        r@.items.len() == 2,
{
    let mut items: Vec<OrderingItem> = Vec::new();
    items.push(ordering_item(&["lerne", "Ich", "Deutsch"], &[1, 0, 2]));
    items.push(ordering_item(&["gehe", "heute", "Ich", "ins Kino"], &[2, 0, 1, 3]));
    OrderingChallenge {
        id: "sentence-structure".to_string(),
        name: "Satzbau".to_string(),
        description: "Bring die Wörter in die richtige Reihenfolge.".to_string(),
        items,
    }
}

} // verus!
