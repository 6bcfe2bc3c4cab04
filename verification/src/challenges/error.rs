//! What can go wrong with challenges.

use vstd::prelude::*;

verus! {

/// An error about a challenge.
#[derive(Debug, PartialEq, Clone)]
pub enum ChallengeError {
    /// Challenge type not found
    ChallengeTypeNotFound,
    /// Challenge config not found
    ChallengeConfigNotFound(String),
    /// Invalid challenge input
    InvalidInput(String),
    /// No more tasks
    NoMoreTasks,
    /// No previous tasks
    NoPreviousTasks,
    /// Invalid option id
    InvalidOptionId(usize),
    /// Invalid challenge type for operation
    InvalidChallengeType,
    /// Challenge validation failed
    ValidationFailed(String),
    /// Base64 decode error
    Base64Decode(String),
    /// Serialization error
    Serialization(String),
    /// Deserialization error
    Deserialization(String),
    /// Parse error
    Parse(String),
    /// Challenge not found
    ChallengeNotFound(String),
}

} // verus!
