//! Placeholders for challenges that are still to come.

use super::informative::{InformativeText, InformativeTextView};
use crate::equality::Equals;
use vstd::prelude::*;

verus! {

/// What kind of placeholder a challenge is.
#[derive(Debug, Clone, Copy, PartialEq, Eq, Structural)]
pub enum PlaceholderType {
    ComingSoon,
    Planned,
    UnderDevelopment,
}

impl DeepView for PlaceholderType {
    type V = PlaceholderType;

    open spec fn deep_view(&self) -> PlaceholderType {
        *self
    }
}

impl Equals for PlaceholderType {
    fn equals(&self, other: &Self) -> (r: bool) {
        *self == *other
    }
}

/// A placeholder challenge.
#[derive(Debug, PartialEq)]
pub struct Placeholder {
    /// Unique identifier for the placeholder
    pub id: String,
    /// Display name of the placeholder
    pub name: String,
    /// Description of what's coming
    pub description: String,
    /// Type of placeholder
    pub type_: PlaceholderType,
    /// Optional image identifier
    pub image: Option<String>,
    /// Estimated time for completion
    pub estimated_time: Option<String>,
    /// Informative text content
    pub text: Vec<InformativeText>,
}

/// The value of a [`Placeholder`].
pub struct PlaceholderView {
    pub id: Seq<char>,
    pub name: Seq<char>,
    pub description: Seq<char>,
    pub type_: PlaceholderType,
    pub image: Option<Seq<char>>,
    pub estimated_time: Option<Seq<char>>,
    pub text: Seq<InformativeTextView>,
}

impl DeepView for Placeholder {
    type V = PlaceholderView;

    open spec fn deep_view(&self) -> PlaceholderView {
        PlaceholderView {
            id: self.id@,
            name: self.name@,
            description: self.description@,
            type_: self.type_.deep_view(),
            image: self.image.deep_view(),
            estimated_time: self.estimated_time.deep_view(),
            text: self.text.deep_view(),
        }
    }
}

impl View for Placeholder {
    type V = PlaceholderView;

    open spec fn view(&self) -> PlaceholderView {
        self.deep_view()
    }
}

impl Clone for Placeholder {
    fn clone(&self) -> (r: Self)
        ensures
            r@ == self@,
    {
        let id = self.id.clone();
        let name = self.name.clone();
        let description = self.description.clone();
        let type_ = self.type_;
        let image = self.image.clone();
        let estimated_time = self.estimated_time.clone();
        let text = self.text.clone();
        assert(text.deep_view() =~= self.text.deep_view());
        Placeholder { id, name, description, type_, image, estimated_time, text }
    }
}

impl Equals for Placeholder {
    fn equals(&self, other: &Self) -> (r: bool) {
        self.id.equals(&other.id)
            && self.name.equals(&other.name)
            && self.description.equals(&other.description)
            && self.type_.equals(&other.type_)
            && self.image.equals(&other.image)
            && self.estimated_time.equals(&other.estimated_time)
            && self.text.equals(&other.text)
    }
}
impl Default for Placeholder {
    /// The built-in announcement of the adjective declension challenge.
    fn default() -> (r: Placeholder)
        ensures
            r@.id == "placeholder-adjective-declension"@,
            r@.name == "Coming Soon: Adjective Declension"@,
            r@.type_ == PlaceholderType::ComingSoon,
            r@.text.len() == 1,
    {
        let mut text: Vec<InformativeText> = Vec::new();
        text.push(super::informative::informative_text(
            "en",
            "Practise the endings of German adjectives after definite, indefinite and no article.",
        ));
        Placeholder {
            id: "placeholder-adjective-declension".to_string(),
            name: "Coming Soon: Adjective Declension".to_string(),
            description: "A challenge on adjective endings is on its way.".to_string(),
            type_: PlaceholderType::ComingSoon,
            image: Some("fa-solid fa-hourglass-half".to_string()),
            estimated_time: Some("Q3 2025".to_string()),
            text,
        }
    }
}

} // verus!
