//! Where challenges come from: the known challenge types, from which a
//! configured challenge is made.

use super::challenge::{Challenge, ChallengeView};
use super::challenge_config::ChallengeConfig;
use super::challenge_result::ChallengeResultView;
use super::challenge_type::{tasks_of, tasks_selectable, type_id, ChallengeType, ChallengeTypeView};
use super::error::ChallengeError;
use super::gap_fill::GapFill;
use super::multiple_choice::{articles, konnektoren, konnektoren_shape};
use super::ordering::sentence_structure;
use crate::equality::Equals;
use crate::text::same_text;
use vstd::prelude::*;

verus! {

/// The challenge types a game knows.
#[derive(Debug, PartialEq)]
pub struct ChallengeFactory {
    pub challenge_types: Vec<ChallengeType>,
}

impl View for ChallengeFactory {
    type V = Seq<ChallengeTypeView>;

    open spec fn view(&self) -> Seq<ChallengeTypeView> {
        self.challenge_types.deep_view()
    }
}

impl DeepView for ChallengeFactory {
    type V = Seq<ChallengeTypeView>;

    open spec fn deep_view(&self) -> Seq<ChallengeTypeView> {
        self@
    }
}

impl Clone for ChallengeFactory {
    fn clone(&self) -> (r: Self)
        ensures
            r@ == self@,
    {
        let challenge_types = self.challenge_types.clone();
        assert(challenge_types.deep_view() =~= self.challenge_types.deep_view());
        ChallengeFactory { challenge_types }
    }
}

impl Equals for ChallengeFactory {
    fn equals(&self, other: &Self) -> (r: bool) {
        self.challenge_types.equals(&other.challenge_types)
    }
}

/// `i` is the first position of `types` holding a type with id `id`.
pub open spec fn first_with_id(types: Seq<ChallengeTypeView>, id: Seq<char>, i: int) -> bool {
    &&& 0 <= i < types.len()
    &&& type_id(types[i]) == id
    &&& forall|j: int| 0 <= j < i ==> type_id(#[trigger] types[j]) != id
}

/// No type of `types` has id `id`.
pub open spec fn lacks_id(types: Seq<ChallengeTypeView>, id: Seq<char>) -> bool {
    forall|j: int| 0 <= j < types.len() ==> type_id(#[trigger] types[j]) != id
}

/// The position of the first of `types` with id `id`.
pub fn position_of(types: &Vec<ChallengeType>, id: &str) -> (r: Option<usize>)
    ensures
        match r {
            Some(i) => first_with_id(types.deep_view(), id@, i as int),
            None => lacks_id(types.deep_view(), id@),
        },
{
    let mut i: usize = 0;
    while i < types.len()
        invariant
            i <= types@.len(),
            forall|j: int| 0 <= j < i ==> type_id(#[trigger] types.deep_view()[j]) != id@,
        decreases types@.len() - i,
    {
        if same_text(types[i].id(), id) {
            assert(type_id(types.deep_view()[i as int]) == id@);
            return Some(i);
        }
        i = i + 1;
    }
    None
}

/// The built-in challenge types, in order: the multiple-choice challenges
/// on connectors and on articles, the gap fill on the perfect tense and the
/// ordering on word order.
pub open spec fn default_factory(f: Seq<ChallengeTypeView>) -> bool {
    &&& f.len() == 4
    &&& f[0] matches ChallengeTypeView::MultipleChoice(d) && konnektoren_shape(d)
    &&& f[1] matches ChallengeTypeView::MultipleChoice(d) && d.id == "articles-1"@
        && d.name == "Artikel"@ && d.options.len() == 3 && d.questions.len() == 4
    &&& f[2] matches ChallengeTypeView::GapFill(d) && d.id == "past-tense"@
        && d.name == "Past Tense Exercise"@ && d.questions.len() == 2
    &&& f[3] matches ChallengeTypeView::OrderingChallenge(d) && d.id == "sentence-structure"@
        && d.items.len() == 2
}

impl Default for ChallengeFactory {
    /// The built-in challenge types: connectors, articles, the perfect
    /// tense and word order.
    fn default() -> (r: ChallengeFactory)
        ensures
            default_factory(r@),
    {
        let mut challenge_types: Vec<ChallengeType> = Vec::new();
        challenge_types.push(ChallengeType::MultipleChoice(konnektoren()));
        challenge_types.push(ChallengeType::MultipleChoice(articles()));
        challenge_types.push(ChallengeType::GapFill(GapFill::default()));
        challenge_types.push(ChallengeType::OrderingChallenge(sentence_structure()));
        ChallengeFactory { challenge_types }
    }
}

/// `c` is the challenge `config` configures, made of `t` with the tasks the
/// configuration selects, with no answers and not started.
pub open spec fn made_from(t: ChallengeTypeView, config: super::challenge_config::ChallengeConfigView, c: ChallengeView) -> bool {
    &&& tasks_of(t, config.tasks, c.challenge_type)
    &&& c.challenge_config == config
    &&& c.challenge_result == ChallengeResultView::MultipleChoice(Seq::empty())
    &&& c.start_time is None && c.end_time is None
}

impl ChallengeFactory {
    /// A factory that knows no challenge type.
    pub fn new() -> (r: ChallengeFactory)
        ensures
            r@ == Seq::<ChallengeTypeView>::empty(),
    {
        let challenge_types: Vec<ChallengeType> = Vec::new();
        assert(challenge_types.deep_view() =~= Seq::<ChallengeTypeView>::empty());
        ChallengeFactory { challenge_types }
    }

    /// The challenge `challenge_config` configures, made from the first
    /// known type with the id it names; `ChallengeTypeNotFound` when no
    /// type has that id.
    pub fn create_challenge(&self, challenge_config: &ChallengeConfig) -> (r: Result<Challenge, ChallengeError>)
        requires
            forall|i: int| first_with_id(self@, challenge_config@.challenge, i)
                ==> tasks_selectable(#[trigger] self@[i], challenge_config@.tasks),
        ensures
            match r {
                Ok(c) => exists|i: int| first_with_id(self@, challenge_config@.challenge, i)
                    && made_from(#[trigger] self@[i], challenge_config@, c@),
                Err(e) => e == ChallengeError::ChallengeTypeNotFound && lacks_id(self@, challenge_config@.challenge),
            },
    {
        match position_of(&self.challenge_types, challenge_config.challenge.as_str()) {
            Some(i) => {
                assert(self.challenge_types@[i as int]@ == self@[i as int]);
                assert(tasks_selectable(self@[i as int], challenge_config@.tasks));
                let selected = self.challenge_types[i].of_tasks(&challenge_config.tasks);
                let c = Challenge::new(&selected, challenge_config);
                assert(made_from(self@[i as int], challenge_config@, c@));
                Ok(c)
            },
            None => Err(ChallengeError::ChallengeTypeNotFound),
        }
    }

    /// The first known type with id `challenge_id`; `ChallengeNotFound`
    /// with the id when there is none.
    pub fn find_challenge_type(&self, challenge_id: &str) -> (r: Result<&ChallengeType, ChallengeError>)
        ensures
            match r {
                Ok(t) => exists|i: int| first_with_id(self@, challenge_id@, i) && t@ == #[trigger] self@[i],
                Err(e) => (e matches ChallengeError::ChallengeNotFound(m) && m@ == challenge_id@)
                    && lacks_id(self@, challenge_id@),
            },
    {
        match position_of(&self.challenge_types, challenge_id) {
            Some(i) => {
                assert(self.challenge_types@[i as int]@ == self@[i as int]);
                Ok(&self.challenge_types[i])
            },
            None => Err(ChallengeError::ChallengeNotFound(challenge_id.to_string())),
        }
    }
}

} // verus!
