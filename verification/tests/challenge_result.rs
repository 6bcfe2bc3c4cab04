use konnektoren_core::challenges::challenge_input::ChallengeInput;
use konnektoren_core::challenges::challenge_result::ChallengeResult;
use konnektoren_core::challenges::contextual_choice::ContextItemChoiceAnswers;
use konnektoren_core::challenges::error::ChallengeError;
use konnektoren_core::challenges::multiple_choice::MultipleChoiceOption;
use konnektoren_core::challenges::ordering::OrderingResult;
use konnektoren_core::challenges::sort_table::SortTableRow;

#[test]
fn default_challenge_result() {
    let challenge_result = ChallengeResult::default();
    match challenge_result {
        ChallengeResult::MultipleChoice(options) => assert!(options.is_empty()),
        _ => panic!("Invalid challenge result"),
    }
}

#[test]
fn add_multiple_choice() {
    let mut challenge_result = ChallengeResult::default();
    let input = ChallengeInput::MultipleChoice(MultipleChoiceOption { id: 1, name: "Option 1".to_string() });
    let result = challenge_result.add_input(input);
    assert!(result.is_ok());
    match challenge_result {
        ChallengeResult::MultipleChoice(options) => assert_eq!(options.len(), 1),
        _ => panic!("Invalid challenge result"),
    }
}

#[test]
fn add_sort_table() {
    let mut challenge_result = ChallengeResult::SortTable(Vec::new());
    let input = ChallengeInput::SortTable(SortTableRow { id: 1, values: vec!["Value 1".to_string()] });
    let result = challenge_result.add_input(input);
    assert!(result.is_ok());
    match challenge_result {
        ChallengeResult::SortTable(rows) => assert_eq!(rows.len(), 1),
        _ => panic!("Invalid challenge result"),
    }
}

#[test]
fn challenge_result_test_is_empty() {
    let challenge_result = ChallengeResult::default();
    assert!(challenge_result.is_empty());
}

#[test]
fn challenge_result_test_len() {
    let challenge_result = ChallengeResult::MultipleChoice(vec![
        MultipleChoiceOption { id: 1, name: "Option 1".to_string() },
        MultipleChoiceOption { id: 2, name: "Option 2".to_string() },
    ]);
    assert_eq!(challenge_result.len(), 2);
}

#[test]
fn add_ordering() {
    let mut challenge_result = ChallengeResult::OrderingResults(Vec::new());
    let input = ChallengeInput::OrderingResult(OrderingResult { order: vec![2, 0, 1] });
    let result = challenge_result.add_input(input);
    assert!(result.is_ok());
    match challenge_result {
        ChallengeResult::OrderingResults(results) => {
            assert_eq!(results.len(), 1);
            assert_eq!(results[0].order, vec![2, 0, 1]);
        },
        _ => panic!("Invalid challenge result"),
    }
}

#[test]
fn test_ordering_len() {
    let challenge_result = ChallengeResult::OrderingResults(vec![
        OrderingResult { order: vec![0, 1, 2] },
        OrderingResult { order: vec![2, 1, 0] },
    ]);
    assert_eq!(challenge_result.len(), 2);
}

#[test]
fn test_ordering_is_empty() {
    let challenge_result = ChallengeResult::OrderingResults(Vec::new());
    assert!(challenge_result.is_empty());
}

#[test]
fn test_add_input_wrong_type() {
    let mut result = ChallengeResult::MultipleChoice(vec![]);
    let input = ChallengeInput::SortTable(SortTableRow::default());
    let err = result.add_input(input);
    assert!(err.is_err());
    assert_eq!(err, Err(ChallengeError::InvalidInput("Expected MultipleChoice input".to_string())));
    assert!(result.is_empty());
}

#[test]
fn test_set_input_multiple_choice() {
    let mut challenge_result = ChallengeResult::default();
    let input = ChallengeInput::MultipleChoice(MultipleChoiceOption { id: 2, name: "Option 2".to_string() });
    let result = challenge_result.set_input(2, input);
    assert!(result.is_ok());
    match challenge_result {
        ChallengeResult::MultipleChoice(options) => {
            assert_eq!(options.len(), 3);
            assert_eq!(options[0].id, 0);
            assert_eq!(options[1].id, 0);
            assert_eq!(options[2].id, 2);
            assert_eq!(options[2].name, "Option 2");
        },
        _ => panic!("Invalid challenge result"),
    }
}

#[test]
fn test_set_input_replace_existing() {
    let mut challenge_result = ChallengeResult::MultipleChoice(vec![
        MultipleChoiceOption { id: 1, name: "Option 1".to_string() },
        MultipleChoiceOption { id: 2, name: "Option 2".to_string() },
    ]);
    let new_input = ChallengeInput::MultipleChoice(MultipleChoiceOption { id: 3, name: "Option 3".to_string() });
    let result = challenge_result.set_input(1, new_input);
    assert!(result.is_ok());
    match challenge_result {
        ChallengeResult::MultipleChoice(options) => {
            assert_eq!(options.len(), 2);
            assert_eq!(options[0].id, 1);
            assert_eq!(options[1].id, 3);
            assert_eq!(options[1].name, "Option 3");
        },
        _ => panic!("Invalid challenge result"),
    }
}

#[test]
fn test_set_input_wrong_type() {
    let mut result = ChallengeResult::MultipleChoice(vec![]);
    let input = ChallengeInput::SortTable(SortTableRow::default());
    let err = result.set_input(0, input);
    assert!(err.is_err());
}

#[test]
fn test_set_input_ordering() {
    let mut challenge_result = ChallengeResult::OrderingResults(Vec::new());
    let input = ChallengeInput::OrderingResult(OrderingResult { order: vec![2, 0, 1] });
    let result = challenge_result.set_input(1, input);
    assert!(result.is_ok());
    match challenge_result {
        ChallengeResult::OrderingResults(results) => {
            assert_eq!(results.len(), 2);
            assert!(results[0].order.is_empty());
            assert_eq!(results[1].order, vec![2, 0, 1]);
        },
        _ => panic!("Invalid challenge result"),
    }
}

#[test]
fn test_set_input_contextual_choice() {
    let mut result = ChallengeResult::ContextualChoice(Vec::new());
    let input = ChallengeInput::ContextualChoice(ContextItemChoiceAnswers { ids: vec![0, 1] });
    let res = result.set_input(0, input);
    assert!(res.is_ok());
    match result {
        ChallengeResult::ContextualChoice(answers) => {
            assert_eq!(answers.len(), 1);
            assert_eq!(answers[0].ids, vec![0, 1]);
        },
        _ => panic!("Expected ContextualChoice result"),
    }
}

#[test]
fn test_set_input_fills_gaps_contextual_choice() {
    let mut result = ChallengeResult::ContextualChoice(Vec::new());
    let input = ChallengeInput::ContextualChoice(ContextItemChoiceAnswers { ids: vec![2] });
    let res = result.set_input(2, input);
    assert!(res.is_ok());
    match result {
        ChallengeResult::ContextualChoice(answers) => {
            assert_eq!(answers.len(), 3);
            assert!(answers[0].ids.is_empty());
            assert!(answers[1].ids.is_empty());
            assert_eq!(answers[2].ids, vec![2]);
        },
        _ => panic!("Expected ContextualChoice result"),
    }
}

#[test]
fn test_set_input_wrong_type_contextual_choice() {
    let mut result = ChallengeResult::ContextualChoice(Vec::new());
    let input = ChallengeInput::MultipleChoice(MultipleChoiceOption::default());
    let res = result.set_input(0, input);
    assert!(res.is_err());
    assert!(matches!(res.unwrap_err(), ChallengeError::InvalidInput(_)));
}

#[test]
fn informative_result_accepts_any_input() {
    let mut result = ChallengeResult::Informative;
    assert!(result.add_input(ChallengeInput::SortTable(SortTableRow::default())).is_ok());
    assert_eq!(result.len(), 0);
}
