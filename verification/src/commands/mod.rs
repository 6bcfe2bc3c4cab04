//! Commands that act on the state of a game being played.

pub mod command_type;
pub mod error;
pub mod command;
pub mod game_command;
pub mod challenge_command;
pub mod game_commands;
pub mod parse;
