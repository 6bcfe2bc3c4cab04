//! What a challenge page reports while it is played.

use super::challenge_result::ChallengeResult;
use super::custom::CustomChallengeResult;
use crate::text::same_text;
use vstd::prelude::*;

verus! {

/// An event of a challenge being played, with the index of the task it is about.
#[derive(Debug, PartialEq)]
pub enum ChallengeEvent {
    NextTask(usize),
    PreviousTask(usize),
    SolvedCorrect(usize),
    SolvedIncorrect(usize),
    Finish(ChallengeResult),
}

/// The fields of an event object that an event is read from.
pub struct EventMessage {
    /// The `type` field
    pub kind: String,
    /// The `index` field, where it is a number
    pub index: Option<usize>,
    /// The `result` field, where it holds a custom result
    pub result: Option<CustomChallengeResult>,
}

/// What reading an event from `m` gives: by its type an event with its
/// index, or a finish with its custom result; `None` for an unknown type
/// or a missing field.
pub open spec fn spec_event(m: EventMessage, r: Option<ChallengeEvent>) -> bool {
    if m.kind@ == "NextTask"@ {
        match m.index { Some(i) => r == Some(ChallengeEvent::NextTask(i)), None => r is None }
    } else if m.kind@ == "PreviousTask"@ {
        match m.index { Some(i) => r == Some(ChallengeEvent::PreviousTask(i)), None => r is None }
    } else if m.kind@ == "SolvedCorrect"@ {
        match m.index { Some(i) => r == Some(ChallengeEvent::SolvedCorrect(i)), None => r is None }
    } else if m.kind@ == "SolvedIncorrect"@ {
        match m.index { Some(i) => r == Some(ChallengeEvent::SolvedIncorrect(i)), None => r is None }
    } else if m.kind@ == "Finish"@ {
        match m.result {
            Some(c) => r matches Some(ChallengeEvent::Finish(ChallengeResult::Custom(d))) && d@ == c@,
            None => r is None,
        }
    } else {
        r is None
    }
}

impl ChallengeEvent {
    /// The event `m` describes.
    pub fn from_message(m: &EventMessage) -> (r: Option<ChallengeEvent>)
        ensures
            spec_event(*m, r),
    {
        let kind = m.kind.as_str();
        if same_text(kind, "NextTask") {
            match m.index { Some(i) => Some(ChallengeEvent::NextTask(i)), None => None }
        } else if same_text(kind, "PreviousTask") {
            match m.index { Some(i) => Some(ChallengeEvent::PreviousTask(i)), None => None }
        } else if same_text(kind, "SolvedCorrect") {
            match m.index { Some(i) => Some(ChallengeEvent::SolvedCorrect(i)), None => None }
        } else if same_text(kind, "SolvedIncorrect") {
            match m.index { Some(i) => Some(ChallengeEvent::SolvedIncorrect(i)), None => None }
        } else if same_text(kind, "Finish") {
            match &m.result {
                Some(c) => Some(ChallengeEvent::Finish(ChallengeResult::Custom(c.clone()))),
                None => None,
            }
        } else {
            None
        }
    }
}

} // verus!
