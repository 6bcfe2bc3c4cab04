//! Multiple-choice challenges: each question has one correct option.

use crate::equality::Equals;
use vstd::prelude::*;

verus! {

/// A multiple-choice challenge.
#[derive(Debug, PartialEq)]
pub struct MultipleChoice {
    /// Unique identifier for the challenge
    pub id: String,
    /// Display name of the challenge
    pub name: String,
    /// Language code (e.g., "en", "de")
    pub lang: String,
    /// Available answer options
    pub options: Vec<MultipleChoiceOption>,
    /// List of questions
    pub questions: Vec<Question>,
}

/// An answer option, which is also what a player answers with.
#[derive(Debug, PartialEq, Default)]
pub struct MultipleChoiceOption {
    /// Option identifier
    pub id: usize,
    /// Display text for the option
    pub name: String,
}

/// A question with the id of its correct option.
#[derive(Debug, PartialEq, Default)]
pub struct Question {
    /// The question text
    pub question: String,
    /// Help text or context
    pub help: String,
    /// Optional image/icon identifier
    pub image: Option<String>,
    /// ID of the correct option
    pub option: usize,
}

pub struct MultipleChoiceView {
    pub id: Seq<char>,
    pub name: Seq<char>,
    pub lang: Seq<char>,
    pub options: Seq<MultipleChoiceOptionView>,
    pub questions: Seq<QuestionView>,
}

pub struct MultipleChoiceOptionView {
    pub id: usize,
    pub name: Seq<char>,
}

pub struct QuestionView {
    pub question: Seq<char>,
    pub help: Seq<char>,
    pub image: Option<Seq<char>>,
    pub option: usize,
}

impl DeepView for MultipleChoiceOption {
    type V = MultipleChoiceOptionView;

    open spec fn deep_view(&self) -> MultipleChoiceOptionView {
        MultipleChoiceOptionView { id: self.id, name: self.name@ }
    }
}

impl View for MultipleChoiceOption {
    type V = MultipleChoiceOptionView;

    open spec fn view(&self) -> MultipleChoiceOptionView {
        self.deep_view()
    }
}

impl Clone for MultipleChoiceOption {
    fn clone(&self) -> (r: Self)
        ensures
            r@ == self@,
    {
        MultipleChoiceOption { id: self.id, name: self.name.clone() }
    }
}

impl Equals for MultipleChoiceOption {
    fn equals(&self, other: &Self) -> (r: bool) {
        self.id == other.id && self.name.equals(&other.name)
    }
}

impl DeepView for Question {
    type V = QuestionView;

    open spec fn deep_view(&self) -> QuestionView {
        QuestionView {
            question: self.question@,
            help: self.help@,
            image: self.image.deep_view(),
            option: self.option,
        }
    }
}

impl View for Question {
    type V = QuestionView;

    open spec fn view(&self) -> QuestionView {
        self.deep_view()
    }
}

impl Clone for Question {
    fn clone(&self) -> (r: Self)
        ensures
            r@ == self@,
    {
        Question {
            question: self.question.clone(),
            help: self.help.clone(),
            image: self.image.clone(),
            option: self.option,
        }
    }
}

impl Equals for Question {
    fn equals(&self, other: &Self) -> (r: bool) {
        self.question.equals(&other.question) && self.help.equals(&other.help) && self.image.equals(
            &other.image,
        ) && self.option == other.option
    }
}

impl DeepView for MultipleChoice {
    type V = MultipleChoiceView;

    open spec fn deep_view(&self) -> MultipleChoiceView {
        MultipleChoiceView {
            id: self.id@,
            name: self.name@,
            lang: self.lang@,
            options: self.options.deep_view(),
            questions: self.questions.deep_view(),
        }
    }
}

impl View for MultipleChoice {
    type V = MultipleChoiceView;

    open spec fn view(&self) -> MultipleChoiceView {
        self.deep_view()
    }
}

impl Clone for MultipleChoice {
    fn clone(&self) -> (r: Self)
        ensures
            r@ == self@,
    {
        let r = MultipleChoice {
            id: self.id.clone(),
            name: self.name.clone(),
            lang: self.lang.clone(),
            options: self.options.clone(),
            questions: self.questions.clone(),
        };
        assert(r.options.deep_view() =~= self.options.deep_view());
        assert(r.questions.deep_view() =~= self.questions.deep_view());
        r
    }
}

impl Equals for MultipleChoice {
    fn equals(&self, other: &Self) -> (r: bool) {
        self.id.equals(&other.id) && self.name.equals(&other.name) && self.lang.equals(&other.lang)
            && self.options.equals(&other.options) && self.questions.equals(&other.questions)
    }
}

impl Default for MultipleChoice {
    /// A challenge with no id, name, options or questions.
    fn default() -> (r: MultipleChoice)
        ensures
            r@.id.len() == 0 && r@.name.len() == 0 && r@.lang.len() == 0,
            r@.options.len() == 0 && r@.questions.len() == 0,
    {
        MultipleChoice {
            id: String::new(),
            name: String::new(),
            lang: String::new(),
            options: Vec::new(),
            questions: Vec::new(),
        }
    }
}

/// An option with the given id and text.
fn option(id: usize, name: &str) -> (r: MultipleChoiceOption)
    ensures
        r@.id == id && r@.name == name@,
{
    MultipleChoiceOption { id, name: name.to_string() }
}

/// A question without image, answered by option `option`.
fn question(text: &str, help: &str, option: usize) -> (r: Question)
    ensures
        r@.question == text@ && r@.help == help@ && r@.image is None && r@.option == option,
{
    Question { question: text.to_string(), help: help.to_string(), image: None, option }
}

/// The shape of the built-in connector challenge: its id and name, five
/// options numbered 0 to 4, and ten questions, each answered by one of them,
/// the first by option 0.
pub open spec fn konnektoren_shape(d: MultipleChoiceView) -> bool {
    &&& d.id == "konnektoren"@
    &&& d.name == "Konnektoren"@
    &&& d.lang == "de"@
    &&& d.options.len() == 5
    &&& forall|i: int| 0 <= i < 5 ==> #[trigger] d.options[i].id == i
    &&& d.questions.len() == 10
    &&& forall|i: int| 0 <= i < 10 ==> #[trigger] d.questions[i].option < 5
    &&& d.questions[0].option == 0
    &&& forall|i: int| 1 <= i <= 4 ==> #[trigger] d.questions[i].option == i
}

/// The built-in challenge on German connectors: which kind of connector is
/// the given word?
pub fn konnektoren() -> (r: MultipleChoice)
    ensures
        konnektoren_shape(r@),
{
    let mut options: Vec<MultipleChoiceOption> = Vec::new();
    options.push(option(0, "Additiv"));
    options.push(option(1, "Adversativ"));
    options.push(option(2, "Kausal"));
    options.push(option(3, "Temporal"));
    options.push(option(4, "Konzessiv"));
    let mut questions: Vec<Question> = Vec::new();
    questions.push(question("und", "Verbindet zwei gleichrangige Aussagen.", 0));
    questions.push(question("aber", "Stellt einen Gegensatz her.", 1));
    questions.push(question("weil", "Nennt einen Grund.", 2));
    questions.push(question("nachdem", "Ordnet ein Geschehen zeitlich ein.", 3));
    questions.push(question("obwohl", "Nennt einen Gegengrund, der nicht wirkt.", 4));
    questions.push(question("außerdem", "Fügt eine weitere Aussage hinzu.", 0));
    questions.push(question("jedoch", "Schränkt das Gesagte ein.", 1));
    questions.push(question("denn", "Begründet die vorige Aussage.", 2));
    questions.push(question("bevor", "Nennt, was später geschieht.", 3));
    questions.push(question("trotzdem", "Folgt, obwohl ein Grund dagegen spricht.", 4));
    let r = MultipleChoice {
        id: "konnektoren".to_string(),
        name: "Konnektoren".to_string(),
        lang: "de".to_string(),
        options,
        questions,
    };
    assert(r@.options[0].id == 0);
    assert(r@.questions[0].option == 0);
    r
}

/// The built-in challenge on the articles of German nouns.
pub fn articles() -> (r: MultipleChoice)
    ensures
        r@.id == "articles-1"@,
        r@.name == "Artikel"@,
        r@.options.len() == 3,
        r@.questions.len() == 4,
{
    let mut options: Vec<MultipleChoiceOption> = Vec::new();
    options.push(option(0, "der"));
    options.push(option(1, "die"));
    options.push(option(2, "das"));
    let mut questions: Vec<Question> = Vec::new();
    questions.push(question("Haus", "Ich habe ein neues Haus gekauft.", 2));
    questions.push(question("Tisch", "Der Tisch steht in der Küche.", 0));
    questions.push(question("Lampe", "Die Lampe ist hell.", 1));
    questions.push(question("Buch", "Das Buch liegt auf dem Tisch.", 2));
    MultipleChoice {
        id: "articles-1".to_string(),
        name: "Artikel".to_string(),
        lang: "de".to_string(),
        options,
        questions,
    }
}

} // verus!
