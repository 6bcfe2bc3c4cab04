//! The ways a challenge can be presented.

use crate::equality::Equals;
use vstd::prelude::*;

verus! {

/// How a challenge is presented in the game.
#[derive(Debug, Clone, Copy, PartialEq, Eq, Hash, Structural, Default)]
pub enum ChallengeVariant {
    #[default]
    MultipleChoice,
    ContextualChoice,
    MultipleChoiceCircle,
    MultipleChoice4,
    SortTable,
    InformativeText,
    InformativeMarkdown,
    Custom,
    CustomPackage,
}

impl DeepView for ChallengeVariant {
    type V = ChallengeVariant;

    open spec fn deep_view(&self) -> ChallengeVariant {
        *self
    }
}

impl Equals for ChallengeVariant {
    fn equals(&self, other: &Self) -> (r: bool) {
        *self == *other
    }
}

/// The name a variant is shown with.
pub open spec fn variant_title(v: ChallengeVariant) -> Seq<char> {
    match v {
        ChallengeVariant::MultipleChoice => "Multiple Choice"@,
        ChallengeVariant::ContextualChoice => "Contextual Choice"@,
        ChallengeVariant::MultipleChoiceCircle => "Multiple Choice Circle"@,
        ChallengeVariant::MultipleChoice4 => "Multiple Choice (4 Options)"@,
        ChallengeVariant::SortTable => "Sort Table"@,
        ChallengeVariant::InformativeText => "Informative Text"@,
        ChallengeVariant::InformativeMarkdown => "Informative Markdown"@,
        ChallengeVariant::Custom => "Custom"@,
        ChallengeVariant::CustomPackage => "Custom Package"@,
    }
}

/// The kebab-case key of a variant, as it is stored.
pub open spec fn variant_key(v: ChallengeVariant) -> Seq<char> {
    match v {
        ChallengeVariant::MultipleChoice => "multiple-choice"@,
        ChallengeVariant::ContextualChoice => "contextual-choice"@,
        ChallengeVariant::MultipleChoiceCircle => "multiple-choice-circle"@,
        ChallengeVariant::MultipleChoice4 => "multiple-choice4"@,
        ChallengeVariant::SortTable => "sort-table"@,
        ChallengeVariant::InformativeText => "informative-text"@,
        ChallengeVariant::InformativeMarkdown => "informative-markdown"@,
        ChallengeVariant::Custom => "custom"@,
        ChallengeVariant::CustomPackage => "custom-package"@,
    }
}

impl ChallengeVariant {
    /// The name the variant is shown with (`Display`).
    pub fn to_string(&self) -> (r: String)
        ensures
            r@ == variant_title(*self),
    {
        let s = match self {
            ChallengeVariant::MultipleChoice => "Multiple Choice",
            ChallengeVariant::ContextualChoice => "Contextual Choice",
            ChallengeVariant::MultipleChoiceCircle => "Multiple Choice Circle",
            ChallengeVariant::MultipleChoice4 => "Multiple Choice (4 Options)",
            ChallengeVariant::SortTable => "Sort Table",
            ChallengeVariant::InformativeText => "Informative Text",
            ChallengeVariant::InformativeMarkdown => "Informative Markdown",
            ChallengeVariant::Custom => "Custom",
            ChallengeVariant::CustomPackage => "Custom Package",
        };
        s.to_string()
    }

    /// The kebab-case key of the variant.
    pub fn key(&self) -> (r: &'static str)
        ensures
            r@ == variant_key(*self),
    {
        match self {
            ChallengeVariant::MultipleChoice => "multiple-choice",
            ChallengeVariant::ContextualChoice => "contextual-choice",
            ChallengeVariant::MultipleChoiceCircle => "multiple-choice-circle",
            ChallengeVariant::MultipleChoice4 => "multiple-choice4",
            ChallengeVariant::SortTable => "sort-table",
            ChallengeVariant::InformativeText => "informative-text",
            ChallengeVariant::InformativeMarkdown => "informative-markdown",
            ChallengeVariant::Custom => "custom",
            ChallengeVariant::CustomPackage => "custom-package",
        }
    }

    /// All variants, in declaration order.
    pub fn iter() -> (r: Vec<ChallengeVariant>)
        ensures
            r@ == seq![
                ChallengeVariant::MultipleChoice,
                ChallengeVariant::ContextualChoice,
                ChallengeVariant::MultipleChoiceCircle,
                ChallengeVariant::MultipleChoice4,
                ChallengeVariant::SortTable,
                ChallengeVariant::InformativeText,
                ChallengeVariant::InformativeMarkdown,
                ChallengeVariant::Custom,
                ChallengeVariant::CustomPackage,
            ],
    {
        let r = vec![
            ChallengeVariant::MultipleChoice,
            ChallengeVariant::ContextualChoice,
            ChallengeVariant::MultipleChoiceCircle,
            ChallengeVariant::MultipleChoice4,
            ChallengeVariant::SortTable,
            ChallengeVariant::InformativeText,
            ChallengeVariant::InformativeMarkdown,
            ChallengeVariant::Custom,
            ChallengeVariant::CustomPackage,
        ];
        assert(r@ =~= seq![
            ChallengeVariant::MultipleChoice,
            ChallengeVariant::ContextualChoice,
            ChallengeVariant::MultipleChoiceCircle,
            ChallengeVariant::MultipleChoice4,
            ChallengeVariant::SortTable,
            ChallengeVariant::InformativeText,
            ChallengeVariant::InformativeMarkdown,
            ChallengeVariant::Custom,
            ChallengeVariant::CustomPackage,
        ]);
        r
    }
}

impl From<ChallengeVariant> for &'static str {
    fn from(v: ChallengeVariant) -> (r: &'static str)
        ensures
            r@ == variant_key(v),
    {
        match v {
            ChallengeVariant::MultipleChoice => "multiple-choice",
            ChallengeVariant::ContextualChoice => "contextual-choice",
            ChallengeVariant::MultipleChoiceCircle => "multiple-choice-circle",
            ChallengeVariant::MultipleChoice4 => "multiple-choice4",
            ChallengeVariant::SortTable => "sort-table",
            ChallengeVariant::InformativeText => "informative-text",
            ChallengeVariant::InformativeMarkdown => "informative-markdown",
            ChallengeVariant::Custom => "custom",
            ChallengeVariant::CustomPackage => "custom-package",
        }
    }
}

} // verus!

verus! {

impl vstd::std_specs::convert::FromSpecImpl<ChallengeVariant> for &'static str {
    open spec fn obeys_from_spec() -> bool {
        true
    }

    open spec fn from_spec(v: ChallengeVariant) -> &'static str {
        match v {
            ChallengeVariant::MultipleChoice => "multiple-choice",
            ChallengeVariant::ContextualChoice => "contextual-choice",
            ChallengeVariant::MultipleChoiceCircle => "multiple-choice-circle",
            ChallengeVariant::MultipleChoice4 => "multiple-choice4",
            ChallengeVariant::SortTable => "sort-table",
            ChallengeVariant::InformativeText => "informative-text",
            ChallengeVariant::InformativeMarkdown => "informative-markdown",
            ChallengeVariant::Custom => "custom",
            ChallengeVariant::CustomPackage => "custom-package",
        }
    }
}

} // verus!
