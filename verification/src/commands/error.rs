//! What can go wrong with commands.

use crate::challenges::error::ChallengeError;
use crate::game::GameError;
use vstd::prelude::*;

verus! {

/// An error of a command.
#[derive(Debug, PartialEq, Clone)]
pub enum CommandError {
    InvalidCommand(String),
    ExecutionFailed(String),
    GameError(GameError),
    ChallengeError(ChallengeError),
    ParseError(String),
    UnknownCommandType(String),
    MissingData,
    InvalidData(String),
    StateLock(String),
}

/// An error in reading a command.
#[derive(Debug, PartialEq, Clone)]
pub enum CommandParseError {
    ParseError(String),
    UnknownCommandType(String),
    MissingData,
    InvalidData(String),
}

impl From<GameError> for CommandError {
    fn from(e: GameError) -> (r: CommandError)
        ensures
            r == CommandError::GameError(e),
    {
        CommandError::GameError(e)
    }
}

impl vstd::std_specs::convert::FromSpecImpl<GameError> for CommandError {
    open spec fn obeys_from_spec() -> bool {
        true
    }

    open spec fn from_spec(e: GameError) -> CommandError {
        CommandError::GameError(e)
    }
}

impl From<ChallengeError> for CommandError {
    fn from(e: ChallengeError) -> (r: CommandError)
        ensures
            r == CommandError::ChallengeError(e),
    {
        CommandError::ChallengeError(e)
    }
}

impl vstd::std_specs::convert::FromSpecImpl<ChallengeError> for CommandError {
    open spec fn obeys_from_spec() -> bool {
        true
    }

    open spec fn from_spec(e: ChallengeError) -> CommandError {
        CommandError::ChallengeError(e)
    }
}

} // verus!
