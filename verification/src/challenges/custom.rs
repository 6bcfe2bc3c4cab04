//! Custom challenges: pages of their own, scored by themselves.

use crate::equality::Equals;
use vstd::prelude::*;

verus! {

/// A custom challenge.
#[derive(Debug, PartialEq)]
pub struct Custom {
    /// Unique identifier for the custom challenge
    pub id: String,
    /// Display name of the challenge
    pub name: String,
    /// Description of the challenge
    pub description: String,
    /// HTML content for the challenge
    pub html: String,
    /// Optional HTML content for results display
    pub results_html: Option<String>,
    /// CSS styles for the challenge
    pub css: String,
    /// JavaScript code for the challenge
    pub js: String,
    /// Optional internationalization data
    pub i18n: Option<String>,
    /// Custom data for the challenge, as JSON text
    pub data: String,
    /// Optional task IDs for selection
    pub task_ids: Option<Vec<usize>>,
    /// Optional package URL for external content
    pub package_url: Option<String>,
}

/// The value of a [`Custom`].
pub struct CustomView {
    pub id: Seq<char>,
    pub name: Seq<char>,
    pub description: Seq<char>,
    pub html: Seq<char>,
    pub results_html: Option<Seq<char>>,
    pub css: Seq<char>,
    pub js: Seq<char>,
    pub i18n: Option<Seq<char>>,
    pub data: Seq<char>,
    pub task_ids: Option<Seq<usize>>,
    pub package_url: Option<Seq<char>>,
}

impl DeepView for Custom {
    type V = CustomView;

    open spec fn deep_view(&self) -> CustomView {
        CustomView {
            id: self.id@,
            name: self.name@,
            description: self.description@,
            html: self.html@,
            results_html: self.results_html.deep_view(),
            css: self.css@,
            js: self.js@,
            i18n: self.i18n.deep_view(),
            data: self.data@,
            task_ids: self.task_ids.deep_view(),
            package_url: self.package_url.deep_view(),
        }
    }
}

impl View for Custom {
    type V = CustomView;

    open spec fn view(&self) -> CustomView {
        self.deep_view()
    }
}

impl Clone for Custom {
    fn clone(&self) -> (r: Self)
        ensures
            r@ == self@,
    {
        let id = self.id.clone();
        let name = self.name.clone();
        let description = self.description.clone();
        let html = self.html.clone();
        let results_html = self.results_html.clone();
        let css = self.css.clone();
        let js = self.js.clone();
        let i18n = self.i18n.clone();
        let data = self.data.clone();
        let task_ids = match &self.task_ids {
            Some(v) => {
                let c = v.clone();
                assert(c.deep_view() =~= v.deep_view());
                Some(c)
            },
            None => None,
        };
        let package_url = self.package_url.clone();
        Custom { id, name, description, html, results_html, css, js, i18n, data, task_ids, package_url }
    }
}

impl Equals for Custom {
    fn equals(&self, other: &Self) -> (r: bool) {
        self.id.equals(&other.id)
            && self.name.equals(&other.name)
            && self.description.equals(&other.description)
            && self.html.equals(&other.html)
            && self.results_html.equals(&other.results_html)
            && self.css.equals(&other.css)
            && self.js.equals(&other.js)
            && self.i18n.equals(&other.i18n)
            && self.data.equals(&other.data)
            && self.task_ids.equals(&other.task_ids)
            && self.package_url.equals(&other.package_url)
    }
}

/// The result a custom challenge reports.
#[derive(Debug, PartialEq)]
pub struct CustomChallengeResult {
    pub id: String,
    /// The performance as a percentage: the reported fraction times 100, rounded toward zero
    pub score: u32,
    /// The reported fraction itself, as the bits of a 64-bit float
    pub performance_bits: u64,
    /// Result data, as JSON text
    pub data: String,
}

/// The value of a [`CustomChallengeResult`].
pub struct CustomChallengeResultView {
    pub id: Seq<char>,
    pub score: u32,
    pub performance_bits: u64,
    pub data: Seq<char>,
}

impl DeepView for CustomChallengeResult {
    type V = CustomChallengeResultView;

    open spec fn deep_view(&self) -> CustomChallengeResultView {
        CustomChallengeResultView {
            id: self.id@,
            score: self.score,
            performance_bits: self.performance_bits,
            data: self.data@,
        }
    }
}

impl View for CustomChallengeResult {
    type V = CustomChallengeResultView;

    open spec fn view(&self) -> CustomChallengeResultView {
        self.deep_view()
    }
}

impl Clone for CustomChallengeResult {
    fn clone(&self) -> (r: Self)
        ensures
            r@ == self@,
    {
        let id = self.id.clone();
        let score = self.score;
        let performance_bits = self.performance_bits;
        let data = self.data.clone();
        CustomChallengeResult { id, score, performance_bits, data }
    }
}

impl Equals for CustomChallengeResult {
    fn equals(&self, other: &Self) -> (r: bool) {
        self.id.equals(&other.id)
            && self.score == other.score
            && self.performance_bits == other.performance_bits
            && self.data.equals(&other.data)
    }
}

/// Progress through a custom challenge.
#[derive(Debug, PartialEq, Default)]
pub struct CustomChallengeState {
    pub current_index: usize,
    pub correct_answers: usize,
    pub total_questions: usize,
    pub is_finished: bool,
    /// Start, in milliseconds since the Unix epoch
    pub start_time: Option<i64>,
    /// End, in milliseconds since the Unix epoch
    pub end_time: Option<i64>,
}

/// The value of a [`CustomChallengeState`].
pub struct CustomChallengeStateView {
    pub current_index: usize,
    pub correct_answers: usize,
    pub total_questions: usize,
    pub is_finished: bool,
    pub start_time: Option<i64>,
    pub end_time: Option<i64>,
}

impl DeepView for CustomChallengeState {
    type V = CustomChallengeStateView;

    open spec fn deep_view(&self) -> CustomChallengeStateView {
        CustomChallengeStateView {
            current_index: self.current_index,
            correct_answers: self.correct_answers,
            total_questions: self.total_questions,
            is_finished: self.is_finished,
            start_time: self.start_time.deep_view(),
            end_time: self.end_time.deep_view(),
        }
    }
}

impl View for CustomChallengeState {
    type V = CustomChallengeStateView;

    open spec fn view(&self) -> CustomChallengeStateView {
        self.deep_view()
    }
}

impl Clone for CustomChallengeState {
    fn clone(&self) -> (r: Self)
        ensures
            r@ == self@,
    {
        let current_index = self.current_index;
        let correct_answers = self.correct_answers;
        let total_questions = self.total_questions;
        let is_finished = self.is_finished;
        let start_time = self.start_time;
        let end_time = self.end_time;
        CustomChallengeState { current_index, correct_answers, total_questions, is_finished, start_time, end_time }
    }
}

impl Equals for CustomChallengeState {
    fn equals(&self, other: &Self) -> (r: bool) {
        self.current_index == other.current_index
            && self.correct_answers == other.correct_answers
            && self.total_questions == other.total_questions
            && self.is_finished == other.is_finished
            && self.start_time.equals(&other.start_time)
            && self.end_time.equals(&other.end_time)
    }
}
/// The built-in example of a custom challenge: a page with a button that
/// reports a full score, no task ids and no package.
pub open spec fn default_custom() -> CustomView {
    CustomView {
        id: "custom-example"@,
        name: "Custom Example"@,
        description: "An example of a challenge that brings its own page"@,
        html: "<div id=\"custom-challenge\"><button id=\"finish\">Finish</button></div>"@,
        results_html: None,
        css: "#custom-challenge { text-align: center; }"@,
        js: "document.getElementById('finish').onclick = () => finish({ performance: 1.0 });"@,
        i18n: None,
        data: "{}"@,
        task_ids: None,
        package_url: None,
    }
}

impl Default for Custom {
    /// The built-in example of a custom challenge.
    fn default() -> (r: Custom)
        ensures
            r@ == default_custom(),
    {
        Custom {
            id: "custom-example".to_string(),
            name: "Custom Example".to_string(),
            description: "An example of a challenge that brings its own page".to_string(),
            html: "<div id=\"custom-challenge\"><button id=\"finish\">Finish</button></div>".to_string(),
            results_html: None,
            css: "#custom-challenge { text-align: center; }".to_string(),
            js: "document.getElementById('finish').onclick = () => finish({ performance: 1.0 });".to_string(),
            i18n: None,
            data: "{}".to_string(),
            task_ids: None,
            package_url: None,
        }
    }
}

} // verus!
