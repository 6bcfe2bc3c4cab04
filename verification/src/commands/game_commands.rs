//! Moving between the challenges of the current path without starting them.

use crate::game::{GameState, GameStateView};
use vstd::prelude::*;

verus! {

/// Moves to the next challenge of the current path.
pub struct NextChallengeCommand();

/// Moves to the previous challenge of the current path.
pub struct PreviousChallengeCommand();

/// The number of challenges on the current path of `s`; 0 when there is no such path.
pub open spec fn current_path_len(s: GameStateView) -> int {
    if s.current_game_path < s.game.game_paths.len() {
        s.game.game_paths[s.current_game_path as int].challenges.len() as int
    } else {
        0
    }
}

impl NextChallengeCommand {
    /// One challenge on along the current path, unless the current one is its last.
    pub fn execute(&self, state: &mut GameState) -> (r: Result<(), String>)
        ensures
            if old(state).current_challenge_index + 1 >= current_path_len(old(state)@) {
                final(state)@ == old(state)@ && (r matches Err(m) && m@ == "No more challenges"@)
            } else {
                final(state)@ == (GameStateView {
                    current_challenge_index: (old(state).current_challenge_index + 1) as usize,
                    ..old(state)@
                }) && r is Ok
            },
    {
        let len = if state.current_game_path < state.game.game_paths.len() {
            state.game.game_paths[state.current_game_path].challenges.len()
        } else {
            0
        };
        if len == 0 || state.current_challenge_index >= len - 1 {
            return Err("No more challenges".to_string());
        }
        state.current_challenge_index = state.current_challenge_index + 1;
        Ok(())
    }
}

impl PreviousChallengeCommand {
    /// One challenge back along the current path, unless at its first.
    pub fn execute(&self, state: &mut GameState) -> (r: Result<(), String>)
        ensures
            if old(state).current_challenge_index == 0 {
                final(state)@ == old(state)@ && (r matches Err(m) && m@ == "No previous challenges"@)
            } else {
                final(state)@ == (GameStateView {
                    current_challenge_index: (old(state).current_challenge_index - 1) as usize,
                    ..old(state)@
                }) && r is Ok
            },
    {
        if state.current_challenge_index == 0 {
            return Err("No previous challenges".to_string());
        }
        state.current_challenge_index = state.current_challenge_index - 1;
        Ok(())
    }
}

} // verus!
