//! The core command structure and traits for the game.

use super::challenge_command::ChallengeCommand;
use super::command_type::CommandType;
use super::error::CommandError;
use super::game_command::GameCommand;
use crate::game::{GameState, GameStateView};
use vstd::prelude::*;

verus! {

/// The basic behavior of all commands in the game.
pub trait CommandTrait {
    /// Executing on a state of value `state` does not panic.
    spec fn can_execute(&self, state: GameStateView) -> bool;

    /// Executing on `before` may leave `after` and answer `r`.
    spec fn executes(&self, before: GameStateView, after: GameStateView, r: Result<(), CommandError>) -> bool;

    /// The type of the command.
    spec fn kind(&self) -> CommandType;

    /// Executes the command on the given game state.
    fn execute(&self, state: &mut GameState) -> (r: Result<(), CommandError>)
        requires
            self.can_execute(old(state)@),
        ensures
            self.executes(old(state)@, final(state)@, r),
    ;

    /// Gets the type of the command.
    fn get_type(&self) -> (r: CommandType)
        ensures
            r == self.kind(),
    ;
}

/// A game-level or a challenge-level command.
#[derive(Debug, PartialEq)]
pub enum Command {
    /// Represents a game-level command.
    Game(GameCommand),
    /// Represents a challenge-level command.
    Challenge(ChallengeCommand),
}

impl Clone for Command {
    fn clone(&self) -> (r: Self)
        ensures
            r == *self || (r matches Command::Challenge(c) && self matches Command::Challenge(d) && c@ == d@),
    {
        match self {
            Command::Game(g) => Command::Game(*g),
            Command::Challenge(c) => Command::Challenge(c.clone()),
        }
    }
}

impl CommandTrait for Command {
    open spec fn can_execute(&self, state: GameStateView) -> bool {
        match self {
            Command::Game(g) => g.can_execute(state),
            Command::Challenge(c) => c.can_execute(state),
        }
    }

    open spec fn executes(&self, before: GameStateView, after: GameStateView, r: Result<(), CommandError>) -> bool {
        match self {
            Command::Game(g) => g.executes(before, after, r),
            Command::Challenge(c) => c.executes(before, after, r),
        }
    }

    open spec fn kind(&self) -> CommandType {
        match self {
            Command::Game(_) => CommandType::Game,
            Command::Challenge(_) => CommandType::Challenge,
        }
    }

    /// Runs the game or challenge command it holds.
    fn execute(&self, state: &mut GameState) -> (r: Result<(), CommandError>) {
        match self {
            Command::Game(cmd) => cmd.execute(state),
            Command::Challenge(cmd) => cmd.execute(state),
        }
    }

    fn get_type(&self) -> (r: CommandType) {
        match self {
            Command::Game(_) => CommandType::Game,
            Command::Challenge(_) => CommandType::Challenge,
        }
    }
}

impl Command {
    /// Whether executing the command on `state` does not panic.
    pub fn can_run(&self, state: &GameState) -> (r: bool)
        ensures
            r == self.can_execute(state@),
    {
        match self {
            Command::Game(g) => g.can_run(state),
            Command::Challenge(c) => c.can_run(state),
        }
    }
}

} // verus!
