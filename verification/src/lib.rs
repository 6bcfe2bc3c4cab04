//! Verified core of a language-learning game: challenges, their results and
//! scoring, task selection patterns, the game state and the commands acting on it.

pub mod text;
pub mod task_pattern;
pub mod equality;
pub mod challenges;
pub mod game;
pub mod commands;
pub mod controller;
