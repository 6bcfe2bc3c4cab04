//! Vocabulary sets: words with translation, icon and pronunciation.

use crate::equality::Equals;
use vstd::prelude::*;

verus! {

/// A vocabulary set.
#[derive(Debug, PartialEq)]
pub struct Vocabulary {
    pub id: String,
    pub name: String,
    pub description: String,
    pub icon: Option<String>,
    pub lang: String,
    pub items: Vec<VocabularyItem>,
}

/// The value of a [`Vocabulary`].
pub struct VocabularyView {
    pub id: Seq<char>,
    pub name: Seq<char>,
    pub description: Seq<char>,
    pub icon: Option<Seq<char>>,
    pub lang: Seq<char>,
    pub items: Seq<VocabularyItemView>,
}

impl DeepView for Vocabulary {
    type V = VocabularyView;

    open spec fn deep_view(&self) -> VocabularyView {
        VocabularyView {
            id: self.id@,
            name: self.name@,
            description: self.description@,
            icon: self.icon.deep_view(),
            lang: self.lang@,
            items: self.items.deep_view(),
        }
    }
}

impl View for Vocabulary {
    type V = VocabularyView;

    open spec fn view(&self) -> VocabularyView {
        self.deep_view()
    }
}

impl Clone for Vocabulary {
    fn clone(&self) -> (r: Self)
        ensures
            r@ == self@,
    {
        let id = self.id.clone();
        let name = self.name.clone();
        let description = self.description.clone();
        let icon = self.icon.clone();
        let lang = self.lang.clone();
        let items = self.items.clone();
        assert(items.deep_view() =~= self.items.deep_view());
        Vocabulary { id, name, description, icon, lang, items }
    }
}

impl Equals for Vocabulary {
    fn equals(&self, other: &Self) -> (r: bool) {
        self.id.equals(&other.id)
            && self.name.equals(&other.name)
            && self.description.equals(&other.description)
            && self.icon.equals(&other.icon)
            && self.lang.equals(&other.lang)
            && self.items.equals(&other.items)
    }
}

/// A word of a vocabulary set.
#[derive(Debug, PartialEq, Default)]
pub struct VocabularyItem {
    pub id: usize,
    pub text: String,
    pub translation: Option<String>,
    pub icon: Option<String>,
    pub phonetic: Option<String>,
}

/// The value of a [`VocabularyItem`].
pub struct VocabularyItemView {
    pub id: usize,
    pub text: Seq<char>,
    pub translation: Option<Seq<char>>,
    pub icon: Option<Seq<char>>,
    pub phonetic: Option<Seq<char>>,
}

impl DeepView for VocabularyItem {
    type V = VocabularyItemView;

    open spec fn deep_view(&self) -> VocabularyItemView {
        VocabularyItemView {
            id: self.id,
            text: self.text@,
            translation: self.translation.deep_view(),
            icon: self.icon.deep_view(),
            phonetic: self.phonetic.deep_view(),
        }
    }
}

impl View for VocabularyItem {
    type V = VocabularyItemView;

    open spec fn view(&self) -> VocabularyItemView {
        self.deep_view()
    }
}

impl Clone for VocabularyItem {
    fn clone(&self) -> (r: Self)
        ensures
            r@ == self@,
    {
        let id = self.id;
        let text = self.text.clone();
        let translation = self.translation.clone();
        let icon = self.icon.clone();
        let phonetic = self.phonetic.clone();
        VocabularyItem { id, text, translation, icon, phonetic }
    }
}

impl Equals for VocabularyItem {
    fn equals(&self, other: &Self) -> (r: bool) {
        self.id == other.id
            && self.text.equals(&other.text)
            && self.translation.equals(&other.translation)
            && self.icon.equals(&other.icon)
            && self.phonetic.equals(&other.phonetic)
    }
}
/// A word with its translation and pronunciation, without icon.
fn word(id: usize, text: &str, translation: &str, phonetic: &str) -> (r: VocabularyItem)
    ensures
        r@.id == id && r@.text == text@,
{
    VocabularyItem {
        id,
        text: text.to_string(),
        translation: Some(translation.to_string()),
        icon: None,
        phonetic: Some(phonetic.to_string()),
    }
}

impl Default for Vocabulary {
    /// The built-in set of basic German words.
    fn default() -> (r: Vocabulary)
        ensures
            r@.id == "vocabulary-example"@,
            r@.name == "Basic German Vocabulary"@,
            r@.description == "Learn essential German words with pronunciation"@,
            r@.icon == Some("fa-solid fa-book-open"@),
            r@.lang == "de"@,
            r@.items.len() == 5,
    {
        let mut items: Vec<VocabularyItem> = Vec::new();
        items.push(word(0, "Hallo", "Hello", "ˈhalo"));
        items.push(word(1, "Danke", "Thank you", "ˈdaŋkə"));
        items.push(word(2, "Bitte", "Please", "ˈbɪtə"));
        items.push(word(3, "Wasser", "Water", "ˈvasɐ"));
        items.push(word(4, "Haus", "House", "haʊ̯s"));
        Vocabulary {
            id: "vocabulary-example".to_string(),
            name: "Basic German Vocabulary".to_string(),
            description: "Learn essential German words with pronunciation".to_string(),
            icon: Some("fa-solid fa-book-open".to_string()),
            lang: "de".to_string(),
            items,
        }
    }
}

} // verus!
