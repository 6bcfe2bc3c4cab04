//! What can go wrong in the controller and its plugins.

use crate::commands::error::CommandError;
use vstd::prelude::*;

verus! {

/// An error of a controller plugin.
#[derive(Debug, PartialEq, Clone)]
pub enum ControllerPluginError {
    /// Plugin initialization error
    InitError(String),
    /// Plugin loading error
    LoadError(String),
    /// Plugin unloading error
    UnloadError(String),
    /// General plugin error
    PluginError(String),
}

/// An error of the game controller.
#[derive(Debug, PartialEq, Clone)]
pub enum ControllerError {
    /// Game state error
    GameState(String),
    /// Persistence error, with its message
    Persistence(String),
    /// Command execution error
    CommandExecution(CommandError),
    /// Plugin error
    Plugin(ControllerPluginError),
    /// State lock error
    StateLock,
    /// Invalid state
    InvalidState(String),
}

} // verus!
