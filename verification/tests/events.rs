use konnektoren_core::challenges::challenge_result::ChallengeResult;
use konnektoren_core::challenges::custom::CustomChallengeResult;
use konnektoren_core::challenges::events::{ChallengeEvent, EventMessage};

fn message(kind: &str, index: Option<usize>) -> EventMessage {
    EventMessage { kind: kind.to_string(), index, result: None }
}

#[test]
fn test_challenge_event_from_js_value() {
    assert_eq!(ChallengeEvent::from_message(&message("NextTask", Some(1))), Some(ChallengeEvent::NextTask(1)));
    assert_eq!(ChallengeEvent::from_message(&message("PreviousTask", Some(2))), Some(ChallengeEvent::PreviousTask(2)));
    assert_eq!(ChallengeEvent::from_message(&message("SolvedCorrect", Some(3))), Some(ChallengeEvent::SolvedCorrect(3)));
    assert_eq!(ChallengeEvent::from_message(&message("SolvedIncorrect", Some(4))), Some(ChallengeEvent::SolvedIncorrect(4)));
    let result = CustomChallengeResult { id: "123".to_string(), score: 0, performance_bits: 0, data: "{}".to_string() };
    let finish = EventMessage { kind: "Finish".to_string(), index: None, result: Some(result.clone()) };
    assert_eq!(ChallengeEvent::from_message(&finish), Some(ChallengeEvent::Finish(ChallengeResult::Custom(result))));
}

#[test]
fn events_need_their_type_and_data() {
    assert_eq!(ChallengeEvent::from_message(&message("Jump", Some(1))), None);
    assert_eq!(ChallengeEvent::from_message(&message("NextTask", None)), None);
    assert_eq!(ChallengeEvent::from_message(&message("Finish", Some(1))), None);
}
