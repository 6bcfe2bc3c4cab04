//! Game-level commands: moving along the current game path.

use super::command::CommandTrait;
use super::command_type::CommandType;
use super::error::CommandError;
use crate::challenges::challenge::{Challenge, ChallengeView};
use crate::challenges::timed::Timed;
use crate::game::{created, creatable_id, first_config, GameError, GameState, GameStateView, GamePath};
use crate::challenges::challenge_factory::{first_with_id, made_from};
use vstd::prelude::*;

verus! {

/// Commands that move along the current game path.
#[derive(Debug, Clone, Copy, PartialEq, Eq, Structural)]
pub enum GameCommand {
    /// Command to move to the next challenge.
    NextChallenge,
    /// Command to move to the previous challenge.
    PreviousChallenge,
}

/// `after` is `before` started: the same challenge with a start time.
pub open spec fn started(before: ChallengeView, after: ChallengeView) -> bool {
    &&& after.challenge_type == before.challenge_type
    &&& after.challenge_config == before.challenge_config
    &&& after.challenge_result == before.challenge_result
    &&& after.end_time == before.end_time
    &&& after.start_time is Some
}

/// `r` is the game error `e`.
pub open spec fn game_error(r: Result<(), CommandError>, e: GameError) -> bool {
    r == Err::<(), CommandError>(CommandError::GameError(e))
}

/// `r` is an `InvalidGameState` error with message `msg`.
pub open spec fn invalid_state(r: Result<(), CommandError>, msg: Seq<char>) -> bool {
    r matches Err(CommandError::GameError(GameError::InvalidGameState(m))) && m@ == msg
}

/// `after` is `before` at challenge `index`, playing the challenge the game
/// creates for the configuration with `id` (started, at its first task), or,
/// when that fails, still playing the challenge it played, with the error.
pub open spec fn moved_to(
    before: GameStateView,
    after: GameStateView,
    index: int,
    id: Seq<char>,
    r: Result<(), CommandError>,
) -> bool {
    &&& after.game == before.game
    &&& after.current_game_path == before.current_game_path
    &&& after.current_challenge_index == index
    &&& exists|c: Result<Challenge, GameError>| #[trigger] created(before.game, id, c) && match c {
        Ok(ch) => r is Ok && started(ch@, after.challenge) && after.current_task_index == 0,
        Err(e) => game_error(r, e) && after.challenge == before.challenge
            && after.current_task_index == before.current_task_index,
    }
}

/// What `NextChallenge` does: on the current path, move to the next
/// challenge, unless there is none.
pub open spec fn spec_next_challenge(before: GameStateView, after: GameStateView, r: Result<(), CommandError>) -> bool {
    let paths = before.game.game_paths;
    if before.current_game_path >= paths.len() {
        after == before && game_error(r, GameError::GamePathNotFound)
    } else {
        let path = paths[before.current_game_path as int];
        if before.current_challenge_index + 1 >= path.challenges.len() {
            after == before && invalid_state(r, "No more challenges"@)
        } else {
            let index = before.current_challenge_index + 1;
            moved_to(before, after, index, path.challenges[index].id, r)
        }
    }
}

/// What `PreviousChallenge` does: move to the challenge before on the
/// current path, unless at the first one.
pub open spec fn spec_previous_challenge(before: GameStateView, after: GameStateView, r: Result<(), CommandError>) -> bool {
    let paths = before.game.game_paths;
    if before.current_challenge_index == 0 {
        after == before && invalid_state(r, "No previous challenges"@)
    } else {
        let index = before.current_challenge_index - 1;
        if before.current_game_path >= paths.len() {
            after == GameStateView { current_challenge_index: index as usize, ..before }
                && game_error(r, GameError::GamePathNotFound)
        } else {
            moved_to(before, after, index, paths[before.current_game_path as int].challenges[index].id, r)
        }
    }
}

impl CommandTrait for GameCommand {
    /// The index moved to stays within the path, and the challenge
    /// configured there can be made.
    open spec fn can_execute(&self, state: GameStateView) -> bool {
        state.current_game_path < state.game.game_paths.len() ==> {
            let path = state.game.game_paths[state.current_game_path as int];
            match self {
                GameCommand::NextChallenge => {
                    &&& state.current_challenge_index < usize::MAX
                    &&& state.current_challenge_index + 1 < path.challenges.len()
                        ==> creatable_id(state.game, path.challenges[state.current_challenge_index + 1].id)
                },
                GameCommand::PreviousChallenge => state.current_challenge_index > 0 ==> {
                    &&& state.current_challenge_index - 1 < path.challenges.len()
                    &&& creatable_id(state.game, path.challenges[state.current_challenge_index - 1].id)
                },
            }
        }
    }

    open spec fn executes(&self, before: GameStateView, after: GameStateView, r: Result<(), CommandError>) -> bool {
        match self {
            GameCommand::NextChallenge => spec_next_challenge(before, after, r),
            GameCommand::PreviousChallenge => spec_previous_challenge(before, after, r),
        }
    }

    open spec fn kind(&self) -> CommandType {
        CommandType::Game
    }

    /// Executes the game command on the given game state.
    fn execute(&self, state: &mut GameState) -> (r: Result<(), CommandError>) {
        match self {
            GameCommand::NextChallenge => GameCommand::next_challenge(state),
            GameCommand::PreviousChallenge => GameCommand::previous_challenge(state),
        }
    }

    fn get_type(&self) -> (r: CommandType) {
        CommandType::Game
    }
}

impl GameCommand {
    /// Moves the game state to the next challenge of the current path.
    pub fn next_challenge(state: &mut GameState) -> (r: Result<(), CommandError>)
        requires
            GameCommand::NextChallenge.can_execute(old(state)@),
        ensures
            spec_next_challenge(old(state)@, final(state)@, r),
    {
        if state.current_game_path >= state.game.game_paths.len() {
            return Err(CommandError::GameError(GameError::GamePathNotFound));
        }
        let current_game_path: &GamePath = &state.game.game_paths[state.current_game_path];
        if state.current_challenge_index + 1 >= current_game_path.challenge_ids().len() {
            return Err(CommandError::GameError(GameError::InvalidGameState("No more challenges".to_string())));
        }
        let index = state.current_challenge_index + 1;
        let created_challenge = state.game.create_challenge(current_game_path.challenges[index].id.as_str());
        state.current_challenge_index = index;
        match created_challenge {
            Ok(challenge) => {
                state.challenge = challenge;
                state.challenge.start();
                state.current_task_index = 0;
                Ok(())
            },
            Err(e) => Err(CommandError::GameError(e)),
        }
    }

    /// Moves the game state to the previous challenge of the current path.
    pub fn previous_challenge(state: &mut GameState) -> (r: Result<(), CommandError>)
        requires
            GameCommand::PreviousChallenge.can_execute(old(state)@),
        ensures
            spec_previous_challenge(old(state)@, final(state)@, r),
    {
        if state.current_challenge_index == 0 {
            return Err(CommandError::GameError(GameError::InvalidGameState("No previous challenges".to_string())));
        }
        state.current_challenge_index = state.current_challenge_index - 1;
        if state.current_game_path >= state.game.game_paths.len() {
            return Err(CommandError::GameError(GameError::GamePathNotFound));
        }
        let current_game_path: &GamePath = &state.game.game_paths[state.current_game_path];
        let challenge_config = &current_game_path.challenges[state.current_challenge_index];
        match state.game.create_challenge(challenge_config.id.as_str()) {
            Ok(challenge) => {
                state.challenge = challenge;
                state.challenge.start();
                state.current_task_index = 0;
                Ok(())
            },
            Err(err) => Err(CommandError::GameError(err)),
        }
    }
}

/// Moving to the next challenge and then back returns to the challenge
/// one started from, whatever making the challenges gave.
pub proof fn lemma_next_then_previous_challenge(
    s0: GameStateView,
    s1: GameStateView,
    s2: GameStateView,
    r2: Result<(), CommandError>,
)
    requires
        spec_next_challenge(s0, s1, Ok(())),
        spec_previous_challenge(s1, s2, r2),
    ensures
        s2.current_challenge_index == s0.current_challenge_index,
        s2.current_game_path == s0.current_game_path,
        s2.game == s0.game,
{
}

impl GameCommand {
    /// Whether executing the command on `state` does not panic.
    pub fn can_run(&self, state: &GameState) -> (r: bool)
        ensures
            r == self.can_execute(state@),
    {
        if state.current_game_path >= state.game.game_paths.len() {
            return true;
        }
        let path = &state.game.game_paths[state.current_game_path];
        let index = state.current_challenge_index;
        match self {
            GameCommand::NextChallenge => {
                if index == usize::MAX {
                    false
                } else if index + 1 < path.challenges.len() {
                    state.game.can_create(path.challenges[index + 1].id.as_str())
                } else {
                    true
                }
            },
            GameCommand::PreviousChallenge => {
                if index == 0 {
                    true
                } else if index - 1 < path.challenges.len() {
                    state.game.can_create(path.challenges[index - 1].id.as_str())
                } else {
                    false
                }
            },
        }
    }
}


/// Moving to the next challenge goes exactly one challenge on along the
/// current path when there is one, and the challenge played is then the one
/// configured there (its configuration carries that id), started at its
/// first task; at the last challenge of the path it is refused and nothing
/// changes.
pub proof fn lemma_next_challenge_steps_one_on(before: GameStateView, after: GameStateView, r: Result<(), CommandError>)
    requires
        spec_next_challenge(before, after, r),
        before.current_game_path < before.game.game_paths.len(),
    ensures
        ({
            let path = before.game.game_paths[before.current_game_path as int];
            &&& before.current_challenge_index + 1 < path.challenges.len() ==> {
                &&& after.current_challenge_index == before.current_challenge_index + 1
                &&& after.game == before.game
                &&& r is Ok ==> after.challenge.challenge_config.id
                    == path.challenges[before.current_challenge_index + 1].id
                    && after.current_task_index == 0 && after.challenge.start_time is Some
            }
            &&& before.current_challenge_index + 1 >= path.challenges.len() ==> r is Err && after == before
        }),
{
    let path = before.game.game_paths[before.current_game_path as int];
    if before.current_challenge_index + 1 < path.challenges.len() {
        let id = path.challenges[before.current_challenge_index + 1].id;
        let c = choose|c: Result<Challenge, GameError>| #[trigger] created(before.game, id, c) && match c {
            Ok(ch) => r is Ok && started(ch@, after.challenge) && after.current_task_index == 0,
            Err(e) => game_error(r, e) && after.challenge == before.challenge
                && after.current_task_index == before.current_task_index,
        };
        if let Ok(ch) = c {
            let (p, k, i) = choose|p: int, k: int, i: int| #![trigger first_config(before.game.game_paths, id, p, k), before.game.challenge_factory[i]]
                first_config(before.game.game_paths, id, p, k)
                && first_with_id(before.game.challenge_factory, before.game.game_paths[p].challenges[k].challenge, i)
                && made_from(before.game.challenge_factory[i], before.game.game_paths[p].challenges[k], ch@);
            assert(ch@.challenge_config.id == id);
        }
    }
}

/// Moving to the previous challenge goes exactly one challenge back along
/// the current path, and the challenge played is then the one configured
/// there, started at its first task; at the first challenge it is refused
/// and nothing changes.
pub proof fn lemma_previous_challenge_steps_one_back(before: GameStateView, after: GameStateView, r: Result<(), CommandError>)
    requires
        spec_previous_challenge(before, after, r),
        before.current_game_path < before.game.game_paths.len(),
    ensures
        ({
            let path = before.game.game_paths[before.current_game_path as int];
            &&& before.current_challenge_index > 0 ==> {
                &&& after.current_challenge_index + 1 == before.current_challenge_index
                &&& after.game == before.game
                &&& r is Ok ==> after.challenge.challenge_config.id
                    == path.challenges[before.current_challenge_index - 1].id
                    && after.current_task_index == 0 && after.challenge.start_time is Some
            }
            &&& before.current_challenge_index == 0 ==> r is Err && after == before
        }),
{
    let path = before.game.game_paths[before.current_game_path as int];
    if before.current_challenge_index > 0 {
        let id = path.challenges[before.current_challenge_index - 1].id;
        let c = choose|c: Result<Challenge, GameError>| #[trigger] created(before.game, id, c) && match c {
            Ok(ch) => r is Ok && started(ch@, after.challenge) && after.current_task_index == 0,
            Err(e) => game_error(r, e) && after.challenge == before.challenge
                && after.current_task_index == before.current_task_index,
        };
        if let Ok(ch) = c {
            let (p, k, i) = choose|p: int, k: int, i: int| #![trigger first_config(before.game.game_paths, id, p, k), before.game.challenge_factory[i]]
                first_config(before.game.game_paths, id, p, k)
                && first_with_id(before.game.challenge_factory, before.game.game_paths[p].challenges[k].challenge, i)
                && made_from(before.game.challenge_factory[i], before.game.game_paths[p].challenges[k], ch@);
            assert(ch@.challenge_config.id == id);
        }
    }
}

} // verus!
