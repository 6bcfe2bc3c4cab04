//! Informative challenges: texts to read, with nothing to answer.

use crate::equality::Equals;
use vstd::prelude::*;

verus! {

/// An informative challenge.
#[derive(Debug, PartialEq)]
pub struct Informative {
    pub id: String,
    pub name: String,
    pub description: String,
    pub text: Vec<InformativeText>,
}

/// The value of a [`Informative`].
pub struct InformativeView {
    pub id: Seq<char>,
    pub name: Seq<char>,
    pub description: Seq<char>,
    pub text: Seq<InformativeTextView>,
}

impl DeepView for Informative {
    type V = InformativeView;

    open spec fn deep_view(&self) -> InformativeView {
        InformativeView {
            id: self.id@,
            name: self.name@,
            description: self.description@,
            text: self.text.deep_view(),
        }
    }
}

impl View for Informative {
    type V = InformativeView;

    open spec fn view(&self) -> InformativeView {
        self.deep_view()
    }
}

impl Clone for Informative {
    fn clone(&self) -> (r: Self)
        ensures
            r@ == self@,
    {
        let id = self.id.clone();
        let name = self.name.clone();
        let description = self.description.clone();
        let text = self.text.clone();
        assert(text.deep_view() =~= self.text.deep_view());
        Informative { id, name, description, text }
    }
}

impl Equals for Informative {
    fn equals(&self, other: &Self) -> (r: bool) {
        self.id.equals(&other.id)
            && self.name.equals(&other.name)
            && self.description.equals(&other.description)
            && self.text.equals(&other.text)
    }
}

/// A text in one language.
#[derive(Debug, PartialEq)]
pub struct InformativeText {
    /// Language code
    pub language: String,
    /// The text content
    pub text: String,
}

/// The value of a [`InformativeText`].
pub struct InformativeTextView {
    pub language: Seq<char>,
    pub text: Seq<char>,
}

impl DeepView for InformativeText {
    type V = InformativeTextView;

    open spec fn deep_view(&self) -> InformativeTextView {
        InformativeTextView {
            language: self.language@,
            text: self.text@,
        }
    }
}

impl View for InformativeText {
    type V = InformativeTextView;

    open spec fn view(&self) -> InformativeTextView {
        self.deep_view()
    }
}

impl Clone for InformativeText {
    fn clone(&self) -> (r: Self)
        ensures
            r@ == self@,
    {
        let language = self.language.clone();
        let text = self.text.clone();
        InformativeText { language, text }
    }
}

impl Equals for InformativeText {
    fn equals(&self, other: &Self) -> (r: bool) {
        self.language.equals(&other.language)
            && self.text.equals(&other.text)
    }
}
/// A text in the given language.
pub fn informative_text(language: &str, text: &str) -> (r: InformativeText)
    ensures
        r@.language == language@ && r@.text == text@,
{
    InformativeText { language: language.to_string(), text: text.to_string() }
}

impl Default for Informative {
    /// The built-in explanation of the German personal pronouns, in English
    /// and in German.
    fn default() -> (r: Informative)
        ensures
            r@.id == "personal_pronouns_info"@,
            r@.name == "Personal Pronouns"@,
            r@.text.len() == 2,
            r@.text[0].language == "en"@ && r@.text[1].language == "de"@,
    {
        let mut text: Vec<InformativeText> = Vec::new();
        text.push(informative_text(
            "en",
            "German personal pronouns change with their case: ich, mich, mir; du, dich, dir; er, ihn, ihm; sie, sie, ihr; wir, uns, uns; ihr, euch, euch.",
        ));
        text.push(informative_text(
            "de",
            "Deutsche Personalpronomen ändern sich mit dem Kasus: ich, mich, mir; du, dich, dir; er, ihn, ihm; sie, sie, ihr; wir, uns, uns; ihr, euch, euch.",
        ));
        Informative {
            id: "personal_pronouns_info".to_string(),
            name: "Personal Pronouns".to_string(),
            description: "The personal pronouns in Nominativ, Akkusativ and Dativ".to_string(),
            text,
        }
    }
}

} // verus!
