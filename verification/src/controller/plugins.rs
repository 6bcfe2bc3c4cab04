//! The built-in controller plugins and what they do to the game state.

use crate::challenges::challenge::{Challenge, ChallengeView};
use crate::challenges::challenge_result::{ChallengeResult, ChallengeResultView};
use crate::challenges::challenge_history::spec_add_challenge;
use crate::challenges::performance::Performance;
use crate::game::{GameState, GameStateView};
use crate::text::same_text;
use vstd::prelude::*;

verus! {

/// Logs every command.
#[derive(Debug, Clone, Copy, PartialEq, Eq, Structural, Default)]
pub struct DebugPlugin;

/// Records a finished challenge in the history.
#[derive(Debug, Clone, Copy, PartialEq, Eq, Structural)]
pub struct ChallengeFinishPlugin;

/// Rewards the experience a finished challenge earns.
#[derive(Debug, Clone, Copy, PartialEq, Eq, Structural)]
pub struct GameXpPlugin;

impl DebugPlugin {
    pub fn new() -> (r: DebugPlugin)
        ensures
            r == DebugPlugin,
    {
        DebugPlugin
    }

    pub fn name(&self) -> (r: &'static str)
        ensures
            r@ == "DebugPlugin"@,
    {
        "DebugPlugin"
    }
}

/// `after` is `before` with the challenge played taking `result`, and the
/// challenge `finished` added to the history.
pub open spec fn finish_recorded(
    before: GameStateView,
    after: GameStateView,
    finished: ChallengeView,
    result: ChallengeResultView,
) -> bool {
    &&& after.current_game_path == before.current_game_path
    &&& after.current_challenge_index == before.current_challenge_index
    &&& after.current_task_index == before.current_task_index
    &&& after.game.game_paths == before.game.game_paths
    &&& after.game.challenge_factory == before.game.challenge_factory
    &&& after.game.xp == before.game.xp
    &&& after.game.challenge_history == spec_add_challenge(before.game.challenge_history, finished)
    &&& after.challenge == ChallengeView { challenge_result: result, ..before.challenge }
}

impl ChallengeFinishPlugin {
    pub fn name(&self) -> (r: &'static str)
        ensures
            r@ == "ChallengeFinishPlugin"@,
    {
        "ChallengeFinishPlugin"
    }

    /// When `challenge` is the one being played (by the id of its
    /// configuration), gives the challenge played `result` and adds
    /// `challenge` to the history; answers whether it did.
    pub fn handle_challenge_finish(state: &mut GameState, challenge: &Challenge, result: &ChallengeResult) -> (r: bool)
        ensures
            r == (old(state)@.challenge.challenge_config.id == challenge@.challenge_config.id),
            r ==> finish_recorded(old(state)@, final(state)@, challenge@, result@),
            !r ==> final(state)@ == old(state)@,
    {
        if !same_text(state.challenge.challenge_config.id.as_str(), challenge.challenge_config.id.as_str()) {
            return false;
        }
        state.challenge.challenge_result = result.clone();
        state.game.challenge_history.add_challenge(challenge.clone());
        true
    }
}

/// `after` is `before` with the challenge played taking `result`, and the
/// game's experience raised by a tenth of the performance of `result`.
pub open spec fn xp_rewarded(before: GameStateView, after: GameStateView, result: ChallengeResultView, performance: int) -> bool {
    &&& after.current_game_path == before.current_game_path
    &&& after.current_challenge_index == before.current_challenge_index
    &&& after.current_task_index == before.current_task_index
    &&& after.game.game_paths == before.game.game_paths
    &&& after.game.challenge_factory == before.game.challenge_factory
    &&& after.game.challenge_history == before.game.challenge_history
    &&& after.game.xp == before.game.xp + performance / 10
    &&& after.challenge == ChallengeView { challenge_result: result, ..before.challenge }
}

impl GameXpPlugin {
    pub fn name(&self) -> (r: &'static str)
        ensures
            r@ == "GameXpPlugin"@,
    {
        "GameXpPlugin"
    }

    /// Gives the challenge played `result` and adds a tenth of its
    /// performance, rounded down, to the game's experience.
    pub fn update_game_xp(state: &mut GameState, challenge_result: &ChallengeResult)
        requires
            old(state).challenge.can_score(challenge_result@),
            old(state).game.xp + old(state).challenge.performance_of(challenge_result@) / 10 <= u32::MAX,
        ensures
            xp_rewarded(old(state)@, final(state)@, challenge_result@,
                old(state).challenge.performance_of(challenge_result@)),
    {
        state.challenge.challenge_result = challenge_result.clone();
        let performance = state.challenge.performance(challenge_result);
        let xp_reward = performance / 10;
        state.game.xp = state.game.xp + xp_reward;
    }
}

} // verus!
