//! Reading a command from the fields of a message: its type, its action and
//! the data the action needs.

use super::challenge_command::ChallengeCommand;
use super::command::Command;
use super::error::CommandError;
use super::game_command::GameCommand;
use crate::challenges::challenge_result::ChallengeResult;
use crate::challenges::custom::CustomChallengeResult;
use crate::text::same_text;
use vstd::prelude::*;

verus! {

/// The fields of a command message that a command is read from.
pub struct CommandMessage {
    /// The `type` field, where it is a string
    pub kind: Option<String>,
    /// The `action` field, where it is a string
    pub action: Option<String>,
    /// The `optionIndex` field, where present: the number where it is an
    /// unsigned integer, else `None`
    pub option_index: Option<Option<u64>>,
    /// The `result` field, where present: the custom result it holds, or
    /// why it holds none
    pub result: Option<Result<CustomChallengeResult, String>>,
}

/// `r` is an `UnknownCommandType` error naming `name`.
pub open spec fn unknown(r: Result<Command, CommandError>, name: Seq<char>) -> bool {
    r matches Err(CommandError::UnknownCommandType(m)) && m@ == name
}

/// `r` is an `InvalidData` error with message `msg`.
pub open spec fn invalid_data(r: Result<Command, CommandError>, msg: Seq<char>) -> bool {
    r matches Err(CommandError::InvalidData(m)) && m@ == msg
}

/// What reading a game command from `msg` gives.
pub open spec fn parsed_game(msg: CommandMessage, r: Result<Command, CommandError>) -> bool {
    match msg.action {
        None => r == Err::<Command, CommandError>(CommandError::MissingData),
        Some(a) => if a@ == "NextChallenge"@ {
            r == Ok::<Command, CommandError>(Command::Game(GameCommand::NextChallenge))
        } else if a@ == "PreviousChallenge"@ {
            r == Ok::<Command, CommandError>(Command::Game(GameCommand::PreviousChallenge))
        } else {
            unknown(r, a@)
        },
    }
}

/// What reading a challenge command from `msg` gives.
pub open spec fn parsed_challenge(msg: CommandMessage, r: Result<Command, CommandError>) -> bool {
    match msg.action {
        None => r == Err::<Command, CommandError>(CommandError::MissingData),
        Some(a) => if a@ == "NextTask"@ {
            r == Ok::<Command, CommandError>(Command::Challenge(ChallengeCommand::NextTask))
        } else if a@ == "PreviousTask"@ {
            r == Ok::<Command, CommandError>(Command::Challenge(ChallengeCommand::PreviousTask))
        } else if a@ == "SolveOption"@ {
            match msg.option_index {
                None => r == Err::<Command, CommandError>(CommandError::MissingData),
                Some(None) => invalid_data(r, "optionIndex must be a number"@),
                Some(Some(n)) => r == Ok::<Command, CommandError>(Command::Challenge(ChallengeCommand::SolveOption(n as usize))),
            }
        } else if a@ == "Finish"@ {
            match msg.result {
                None => r == Err::<Command, CommandError>(CommandError::MissingData),
                Some(Err(e)) => r matches Err(CommandError::ParseError(m)) && m@ == e@,
                Some(Ok(c)) => r matches Ok(Command::Challenge(ChallengeCommand::Finish(Some(ChallengeResult::Custom(d)))))
                    && d@ == c@,
            }
        } else {
            unknown(r, a@)
        },
    }
}

/// What reading a command from `msg` gives: by its type a game or a
/// challenge command; `MissingData` without a type or action, or without
/// the data its action needs.
pub open spec fn parsed(msg: CommandMessage, r: Result<Command, CommandError>) -> bool {
    match msg.kind {
        None => r == Err::<Command, CommandError>(CommandError::MissingData),
        Some(k) => if k@ == "Game"@ {
            parsed_game(msg, r)
        } else if k@ == "Challenge"@ {
            parsed_challenge(msg, r)
        } else {
            unknown(r, k@)
        },
    }
}

impl GameCommand {
    /// The game command `msg` names.
    pub fn parse(msg: &CommandMessage) -> (r: Result<Command, CommandError>)
        ensures
            parsed_game(*msg, r),
    {
        match &msg.action {
            None => Err(CommandError::MissingData),
            Some(a) => if same_text(a.as_str(), "NextChallenge") {
                Ok(Command::Game(GameCommand::NextChallenge))
            } else if same_text(a.as_str(), "PreviousChallenge") {
                Ok(Command::Game(GameCommand::PreviousChallenge))
            } else {
                Err(CommandError::UnknownCommandType(a.clone()))
            },
        }
    }
}

impl ChallengeCommand {
    /// The challenge command `msg` names, with the data its action needs.
    pub fn parse(msg: &CommandMessage) -> (r: Result<Command, CommandError>)
        ensures
            parsed_challenge(*msg, r),
    {
        match &msg.action {
            None => Err(CommandError::MissingData),
            Some(a) => if same_text(a.as_str(), "NextTask") {
                Ok(Command::Challenge(ChallengeCommand::NextTask))
            } else if same_text(a.as_str(), "PreviousTask") {
                Ok(Command::Challenge(ChallengeCommand::PreviousTask))
            } else if same_text(a.as_str(), "SolveOption") {
                match msg.option_index {
                    None => Err(CommandError::MissingData),
                    Some(None) => Err(CommandError::InvalidData("optionIndex must be a number".to_string())),
                    Some(Some(n)) => {
                        #[verifier::truncate]
                        let index: usize = n as usize;
                        Ok(Command::Challenge(ChallengeCommand::SolveOption(index)))
                    },
                }
            } else if same_text(a.as_str(), "Finish") {
                match &msg.result {
                    None => Err(CommandError::MissingData),
                    Some(Err(e)) => Err(CommandError::ParseError(e.clone())),
                    Some(Ok(c)) => Ok(Command::Challenge(ChallengeCommand::Finish(Some(ChallengeResult::Custom(c.clone()))))),
                }
            } else {
                Err(CommandError::UnknownCommandType(a.clone()))
            },
        }
    }
}

impl Command {
    /// The command `msg` names.
    pub fn parse(msg: &CommandMessage) -> (r: Result<Command, CommandError>)
        ensures
            parsed(*msg, r),
    {
        match &msg.kind {
            None => Err(CommandError::MissingData),
            Some(k) => if same_text(k.as_str(), "Game") {
                GameCommand::parse(msg)
            } else if same_text(k.as_str(), "Challenge") {
                ChallengeCommand::parse(msg)
            } else {
                Err(CommandError::UnknownCommandType(k.clone()))
            },
        }
    }
}

} // verus!
