//! The challenges a player solves, their answers, results and scores.

pub mod contextual_choice;
pub mod custom;
pub mod gap_fill;
pub mod informative;
pub mod multiple_choice;
pub mod ordering;
pub mod placeholder;
pub mod review;
pub mod sort_table;
pub mod vocabulary;
pub mod dialog;
pub mod challenge_variant;
pub mod challenge_config;
pub mod challenge_input;
pub mod error;
pub mod challenge_result;
pub mod challenge_type;
pub mod performance;
pub mod timed;
pub mod solvable;
pub mod challenge;
pub mod challenge_history;
pub mod challenge_stats;
pub mod base64_serializable;
pub mod challenge_factory;
pub mod performance_record;
pub mod package;
pub mod events;
