//! The configuration of a challenge on a game path.

use super::challenge_variant::ChallengeVariant;
use crate::equality::Equals;
use crate::task_pattern::{TaskPattern, TaskPatternModel};
use vstd::prelude::*;

verus! {

/// Where a challenge stands on a game path and how it is played.
#[derive(Debug, PartialEq)]
pub struct ChallengeConfig {
    pub id: String,
    pub name: String,
    pub description: String,
    /// The id of the challenge type it plays
    pub challenge: String,
    pub variant: Option<ChallengeVariant>,
    /// Which tasks of the challenge type are played
    pub tasks: TaskPattern,
    pub unlock_points: usize,
    pub position: Option<(i32, i32)>,
}

/// The value of a [`ChallengeConfig`].
pub struct ChallengeConfigView {
    pub id: Seq<char>,
    pub name: Seq<char>,
    pub description: Seq<char>,
    pub challenge: Seq<char>,
    pub variant: Option<ChallengeVariant>,
    pub tasks: TaskPatternModel,
    pub unlock_points: usize,
    pub position: Option<(i32, i32)>,
}

impl DeepView for ChallengeConfig {
    type V = ChallengeConfigView;

    open spec fn deep_view(&self) -> ChallengeConfigView {
        ChallengeConfigView {
            id: self.id@,
            name: self.name@,
            description: self.description@,
            challenge: self.challenge@,
            variant: self.variant.deep_view(),
            tasks: self.tasks@,
            unlock_points: self.unlock_points,
            position: self.position.deep_view(),
        }
    }
}

impl View for ChallengeConfig {
    type V = ChallengeConfigView;

    open spec fn view(&self) -> ChallengeConfigView {
        self.deep_view()
    }
}

impl Clone for ChallengeConfig {
    fn clone(&self) -> (r: Self)
        ensures
            r@ == self@,
    {
        let id = self.id.clone();
        let name = self.name.clone();
        let description = self.description.clone();
        let challenge = self.challenge.clone();
        let variant = self.variant;
        let tasks = self.tasks.clone();
        let unlock_points = self.unlock_points;
        let position = self.position;
        ChallengeConfig { id, name, description, challenge, variant, tasks, unlock_points, position }
    }
}

impl Equals for ChallengeConfig {
    fn equals(&self, other: &Self) -> (r: bool) {
        self.id.equals(&other.id)
            && self.name.equals(&other.name)
            && self.description.equals(&other.description)
            && self.challenge.equals(&other.challenge)
            && self.variant.equals(&other.variant)
            && self.tasks.equals(&other.tasks)
            && self.unlock_points == other.unlock_points
            && self.position.equals(&other.position)
    }
}

impl Default for ChallengeConfig {
    fn default() -> (r: ChallengeConfig)
        ensures
            r.id@ == "123"@,
            r.name@ == "Konnektoren #1"@,
            r.description@ == "Your first Konnektoren challenge!"@,
            r.challenge@ == "konnektoren"@,
            r.variant is None,
            r.tasks@ == TaskPatternModel::Exact(10),
            r.unlock_points == 0,
            r.position == Some((0i32, 0i32)),
    {
        ChallengeConfig {
            id: "123".to_string(),
            name: "Konnektoren #1".to_string(),
            description: "Your first Konnektoren challenge!".to_string(),
            challenge: "konnektoren".to_string(),
            variant: None,
            tasks: TaskPattern::Exact(10),
            unlock_points: 0,
            position: Some((0, 0)),
        }
    }
}

} // verus!
