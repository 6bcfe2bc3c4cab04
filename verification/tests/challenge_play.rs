use konnektoren_core::challenges::base64_serializable::{decode_text, encode_text};
use konnektoren_core::challenges::challenge::Challenge;
use konnektoren_core::challenges::challenge_config::ChallengeConfig;
use konnektoren_core::challenges::challenge_factory::ChallengeFactory;
use konnektoren_core::challenges::challenge_history::ChallengeHistory;
use konnektoren_core::challenges::challenge_input::ChallengeInput;
use konnektoren_core::challenges::challenge_result::ChallengeResult;
use konnektoren_core::challenges::challenge_stats::ChallengeStats;
use konnektoren_core::challenges::challenge_type::ChallengeType;
use konnektoren_core::challenges::contextual_choice::{Choice, ContextItem, ContextItemChoiceAnswers, ContextualChoice};
use konnektoren_core::challenges::custom::{Custom, CustomChallengeResult};
use konnektoren_core::challenges::error::ChallengeError;
use konnektoren_core::challenges::informative::Informative;
use konnektoren_core::challenges::multiple_choice::{MultipleChoice, MultipleChoiceOption, Question};
use konnektoren_core::challenges::performance::Performance;
use konnektoren_core::challenges::performance_record::{best_challenge_performances, PerformanceRecord};
use konnektoren_core::challenges::solvable::Solvable;
use konnektoren_core::challenges::timed::Timed;
use konnektoren_core::task_pattern::TaskPattern;

const BASE_TIMESTAMP: i64 = 1700000000;

fn one_question_challenge(answer: usize, start: i64, end: i64) -> Challenge {
    let challenge_type = ChallengeType::MultipleChoice(MultipleChoice {
        id: "test".to_string(),
        name: "Test".to_string(),
        lang: "en".to_string(),
        options: vec![
            MultipleChoiceOption { id: 0, name: "Correct".to_string() },
            MultipleChoiceOption { id: 1, name: "Wrong".to_string() },
        ],
        questions: vec![Question {
            question: "Test Question".to_string(),
            help: "Test Help".to_string(),
            option: 0,
            image: None,
        }],
    });
    let mut challenge = Challenge::new(&challenge_type, &ChallengeConfig::default());
    challenge.start_time = Some(start * 1000);
    challenge.challenge_result = ChallengeResult::MultipleChoice(vec![MultipleChoiceOption {
        id: answer,
        name: if answer == 0 { "Correct".to_string() } else { "Wrong".to_string() },
    }]);
    challenge.end_time = Some(end * 1000);
    challenge
}

fn options(ids: &[usize]) -> ChallengeResult {
    ChallengeResult::MultipleChoice(
        ids.iter().map(|&id| MultipleChoiceOption { id, name: format!("Option {}", id) }).collect(),
    )
}

#[test]
fn test_successful_challenge_performance() {
    let challenge = one_question_challenge(0, BASE_TIMESTAMP, BASE_TIMESTAMP + 3600);
    assert_eq!(challenge.performance(&challenge.challenge_result), 100);
}

#[test]
fn test_unsuccessful_challenge_performance() {
    let challenge = one_question_challenge(1, BASE_TIMESTAMP + 7200, BASE_TIMESTAMP + 10800);
    assert_eq!(challenge.performance(&challenge.challenge_result), 0);
}

#[test]
fn default_challenge() {
    let challenge = ChallengeType::default();
    match challenge {
        ChallengeType::MultipleChoice(dataset) => {
            assert_eq!(dataset.name, "Konnektoren");
            assert_eq!(dataset.options.len(), 5);
            assert!(!dataset.questions.is_empty());
        },
        _ => panic!("Invalid challenge type"),
    }
}

#[test]
fn challenge_type_new_challenge() {
    let challenge = ChallengeType::default();
    let new_challenge = challenge.of_tasks(&TaskPattern::Exact(2));
    match new_challenge {
        ChallengeType::MultipleChoice(dataset) => assert_eq!(dataset.questions.len(), 2),
        _ => panic!("Invalid challenge type"),
    }
}

#[test]
fn of_tasks_keeps_selected_questions() {
    let challenge = ChallengeType::default();
    let original = match &challenge {
        ChallengeType::MultipleChoice(d) => d.questions.clone(),
        _ => panic!("Invalid challenge type"),
    };
    match challenge.of_tasks(&TaskPattern::Range(2..=4)) {
        ChallengeType::MultipleChoice(dataset) => assert_eq!(dataset.questions, original[2..=4].to_vec()),
        _ => panic!("Invalid challenge type"),
    }
    match ChallengeType::Custom(Custom::default()).of_tasks(&TaskPattern::Exact(3)) {
        ChallengeType::Custom(dataset) => assert_eq!(dataset.task_ids, Some(vec![0, 1, 2])),
        _ => panic!("Invalid challenge type"),
    }
}

#[test]
fn challenge_performance() {
    let challenge = ChallengeType::default();
    let result = options(&[1, 2, 3, 4, 5]);
    assert_eq!(challenge.performance(&result), 0);
}

#[test]
fn performance_counts_correct_answers() {
    let challenge = ChallengeType::default();
    assert_eq!(challenge.performance(&options(&[0, 1, 2, 3, 4])), 50);
    assert_eq!(challenge.stars(&options(&[0, 1, 2, 3, 4])), 1);
    assert_eq!(ChallengeType::Informative(Informative::default()).performance(&ChallengeResult::Informative), 100);
}

#[test]
fn challenge_name() {
    let challenge = ChallengeType::default();
    assert_eq!(challenge.name(), "Konnektoren");
}

#[test]
fn challenge_id() {
    let challenge = ChallengeType::default();
    assert_eq!(challenge.id(), "konnektoren");
}

#[test]
fn contextual_choice_performance() {
    let challenge = ContextualChoice {
        id: "konjunktiv-2".to_string(),
        name: "Konjunktiv II".to_string(),
        description: "Wähle die richtige Form".to_string(),
        items: vec![
            ContextItem {
                template: "Wenn ich Zeit {0}, {1} ich kommen.".to_string(),
                choices: vec![
                    Choice { id: 0, options: vec!["hätte".to_string(), "habe".to_string()], correct_answer: "hätte".to_string() },
                    Choice { id: 1, options: vec!["würde".to_string(), "werde".to_string()], correct_answer: "würde".to_string() },
                ],
            },
            ContextItem {
                template: "Ich {0} gern reich.".to_string(),
                choices: vec![Choice {
                    id: 0,
                    options: vec!["bin".to_string(), "wäre".to_string()],
                    correct_answer: "wäre".to_string(),
                }],
            },
        ],
    };
    let result = ChallengeResult::ContextualChoice(vec![
        ContextItemChoiceAnswers { ids: vec![0, 0] },
        ContextItemChoiceAnswers { ids: vec![1, 0] },
    ]);
    let performance = ChallengeType::ContextualChoice(challenge).performance(&result);
    assert_eq!(performance, 100);
}

#[test]
fn challenge_type_test_strum_into_static_str() {
    assert_eq!(
        <ChallengeType as Into<&'static str>>::into(ChallengeType::MultipleChoice(MultipleChoice::default())),
        "multiple-choice"
    );
    assert_eq!(
        <ChallengeType as Into<&'static str>>::into(ChallengeType::ContextualChoice(ContextualChoice::default())),
        "contextual-choice"
    );
}

#[test]
fn challenge_type_test_variant_iteration() {
    let variants: Vec<ChallengeType> = ChallengeType::iter();
    assert!(!variants.is_empty());
    assert!(variants.iter().any(|v| matches!(v, ChallengeType::MultipleChoice(_))));
    assert!(variants.iter().any(|v| matches!(v, ChallengeType::ContextualChoice(_))));
    assert_eq!(variants.iter().map(|v| v.key()).collect::<Vec<_>>().len(), 8);
}

#[test]
fn test_performance() {
    let challenge = ChallengeType::default();
    assert_eq!(challenge.performance(&options(&[1, 2])), 0);
}

#[test]
fn performance_test_stars() {
    let challenge = ChallengeType::default();
    assert_eq!(challenge.stars(&options(&[1, 2, 3, 4, 5])), 0);
}

#[test]
fn custom_result_reports_its_score() {
    let challenge = ChallengeType::Custom(Custom::default());
    let result = ChallengeResult::Custom(CustomChallengeResult {
        id: "custom-example".to_string(),
        score: 85,
        performance_bits: 0.85f64.to_bits(),
        data: "{}".to_string(),
    });
    assert_eq!(challenge.performance(&result), 85);
    assert_eq!(challenge.stars(&result), 3);
}

#[test]
fn challenge_new_challenge() {
    let challenge_type = ChallengeType::default();
    let challenge_config = ChallengeConfig::default();
    let challenge = Challenge::new(&challenge_type, &challenge_config);
    assert_eq!(challenge.challenge_type, challenge_type);
    assert_eq!(challenge.challenge_config, challenge_config);
    assert_eq!(challenge.challenge_result, ChallengeResult::default());
}

#[test]
fn solve_challenge() {
    let mut challenge = Challenge::new(&ChallengeType::default(), &ChallengeConfig::default());
    let input = ChallengeInput::MultipleChoice(MultipleChoiceOption::default());
    let result = challenge.solve(input);
    assert!(result.is_ok());
    assert_eq!(result.unwrap(), true);
}

#[test]
fn solve_answers_each_task_in_turn() {
    let mut challenge = Challenge::new(&ChallengeType::default(), &ChallengeConfig::default());
    assert_eq!(challenge.solve(ChallengeInput::MultipleChoice(MultipleChoiceOption { id: 0, name: String::new() })), Ok(true));
    assert_eq!(challenge.solve(ChallengeInput::MultipleChoice(MultipleChoiceOption { id: 0, name: String::new() })), Ok(false));
    assert_eq!(challenge.solve(ChallengeInput::OrderingResult(Default::default())), Ok(false));
    assert_eq!(challenge.challenge_result.len(), 2);
    assert!(challenge.solved());
    assert_eq!(challenge.get_id(), "123");
}

#[test]
fn performance_with_timer() {
    let mut challenge = Challenge::new(&ChallengeType::default(), &ChallengeConfig::default());
    challenge.start();
    let input = ChallengeInput::MultipleChoice(MultipleChoiceOption::default());
    let result = challenge.solve(input).unwrap();
    assert!(result);
    let performance = challenge.performance(&challenge.challenge_result);
    let time_difference = challenge.end_time.unwrap() - challenge.start_time.unwrap();
    assert!(performance >= (time_difference / 1000) as u32);
}

fn wait_past(challenge: &Challenge) {
    let start = challenge.start_time.unwrap();
    let mut probe = Challenge::default();
    loop {
        probe.update_end_time();
        if probe.end_time.unwrap() > start {
            break;
        }
    }
}

#[test]
fn challenge_elapsed_time() {
    let mut challenge = Challenge::new(&ChallengeType::default(), &ChallengeConfig::default());
    challenge.start();
    wait_past(&challenge);
    let input = ChallengeInput::MultipleChoice(MultipleChoiceOption::default());
    let result = challenge.solve(input).unwrap();
    assert!(result);
    let elapsed_time = challenge.elapsed_time().unwrap();
    assert!(elapsed_time > 0);
}

#[test]
fn start_and_end_time() {
    let mut challenge = Challenge::new(&ChallengeType::default(), &ChallengeConfig::default());
    challenge.start();
    let start_time = challenge.start_time().unwrap();
    wait_past(&challenge);
    let input = ChallengeInput::MultipleChoice(MultipleChoiceOption::default());
    let result = challenge.solve(input).unwrap();
    assert!(result);
    let end_time = challenge.end_time().unwrap();
    assert!(end_time > start_time);
}

#[test]
fn create_challenge() {
    let mut challenge_factory = ChallengeFactory::new();
    challenge_factory.challenge_types.push(ChallengeType::default());
    let challenge_config = ChallengeConfig {
        challenge: "konnektoren".to_string(),
        tasks: 2.into(),
        ..Default::default()
    };
    let challenge = challenge_factory.create_challenge(&challenge_config);
    match challenge.unwrap().challenge_type {
        ChallengeType::MultipleChoice(dataset) => assert_eq!(dataset.questions.len(), 2),
        _ => panic!("Invalid challenge type"),
    }
}

#[test]
fn create_challenge_of_unknown_type() {
    let factory = ChallengeFactory::default();
    let config = ChallengeConfig { challenge: "unknown".to_string(), ..Default::default() };
    assert_eq!(factory.create_challenge(&config), Err(ChallengeError::ChallengeTypeNotFound));
    assert_eq!(factory.find_challenge_type("unknown"), Err(ChallengeError::ChallengeNotFound("unknown".to_string())));
    assert_eq!(factory.find_challenge_type("past-tense").unwrap().id(), "past-tense");
}

#[test]
fn base64_text_round_trip() {
    let encoded = encode_text("id: konnektoren\nname: Konnektoren\n");
    assert_eq!(encoded, "aWQ6IGtvbm5la3RvcmVuCm5hbWU6IEtvbm5la3RvcmVuCg==");
    assert_eq!(decode_text(&encoded), Ok("id: konnektoren\nname: Konnektoren\n".to_string()));
    assert_eq!(encode_text(""), "");
    assert_eq!(decode_text(""), Ok(String::new()));
}

#[test]
fn test_encode_decode_invalid_base64() {
    assert!(matches!(decode_text("invalid base64!"), Err(ChallengeError::Base64Decode(_))));
    assert!(matches!(decode_text("/w=="), Err(ChallengeError::Base64Decode(_))));
}

#[test]
fn new_challenge_history() {
    let challenge_history = ChallengeHistory::new();
    assert!(challenge_history.challenges.is_empty());
}

#[test]
fn add_challenge() {
    let mut challenge_history = ChallengeHistory::new();
    let challenge = Challenge::new(&ChallengeType::default(), &ChallengeConfig::default());
    challenge_history.add_challenge(challenge);
    assert_eq!(challenge_history.challenges.len(), 1);
}

#[test]
fn add_challenge_skips_repeat_of_last() {
    let mut challenge_history = ChallengeHistory::new();
    let challenge = Challenge::new(&ChallengeType::default(), &ChallengeConfig::default());
    challenge_history.add_challenge(challenge.clone());
    challenge_history.add_challenge(challenge.clone());
    assert_eq!(challenge_history.len(), 1);
    let other = Challenge::new(&ChallengeType::default(), &ChallengeConfig { id: "456".to_string(), ..Default::default() });
    challenge_history.add_challenge(other);
    challenge_history.add_challenge(challenge);
    assert_eq!(challenge_history.len(), 3);
}

#[test]
fn challenge_history_test_len() {
    let mut challenge_history = ChallengeHistory::new();
    let challenge = Challenge::new(&ChallengeType::default(), &ChallengeConfig::default());
    challenge_history.add_challenge(challenge);
    assert_eq!(challenge_history.len(), 1);
}

#[test]
fn challenge_history_test_is_empty() {
    let challenge_history = ChallengeHistory::new();
    assert!(challenge_history.is_empty());
    let mut challenge_history = ChallengeHistory::new();
    let challenge = Challenge::new(&ChallengeType::default(), &ChallengeConfig::default());
    challenge_history.add_challenge(challenge);
    assert!(!challenge_history.is_empty());
}

#[test]
fn test_extend() {
    let mut challenge_history = ChallengeHistory::new();
    challenge_history.add_challenge(Challenge::new(&ChallengeType::default(), &ChallengeConfig::default()));
    let mut other_challenge_history = ChallengeHistory::new();
    other_challenge_history.add_challenge(Challenge::new(&ChallengeType::default(), &ChallengeConfig::default()));
    challenge_history.extend(&mut other_challenge_history);
    assert_eq!(challenge_history.len(), 2);
}

#[test]
fn test_merge() {
    let mut challenge_history1 = ChallengeHistory::new();
    let challenge1 = Challenge::new(&ChallengeType::default(), &ChallengeConfig::default());
    challenge_history1.add_challenge(challenge1.clone());
    let mut challenge_history2 = ChallengeHistory::new();
    challenge_history2.add_challenge(challenge1.clone());
    let challenge2 = Challenge::new(
        &ChallengeType::default(),
        &ChallengeConfig { id: "456".to_string(), ..ChallengeConfig::default() },
    );
    challenge_history2.add_challenge(challenge2.clone());
    challenge_history1.merge(&challenge_history2);
    assert_eq!(challenge_history1.len(), 2);
    assert!(challenge_history1.challenges.contains(&challenge1));
    assert!(challenge_history1.challenges.contains(&challenge2));
}

#[test]
fn merge_into_itself_changes_nothing() {
    let mut history = ChallengeHistory::new();
    history.add_challenge(Challenge::new(&ChallengeType::default(), &ChallengeConfig::default()));
    let copy = history.clone();
    history.merge(&copy);
    assert_eq!(history, copy);
}

#[test]
fn test_challenges() {
    let mut challenge_history = ChallengeHistory::new();
    assert_eq!(challenge_history.challenges(), 0);
    let challenge = Challenge::new(&ChallengeType::default(), &ChallengeConfig::default());
    challenge_history.add_challenge(challenge);
    assert_eq!(challenge_history.challenges(), 1);
}

#[test]
fn history_is_solved_when_every_challenge_has_an_answer() {
    let mut history = ChallengeHistory::new();
    assert!(history.solved());
    let mut answered = Challenge::new(&ChallengeType::default(), &ChallengeConfig::default());
    answered.challenge_result = options(&[1]);
    history.add_challenge(answered);
    assert!(history.solved());
    history.add_challenge(Challenge::new(&ChallengeType::default(), &ChallengeConfig::default()));
    assert!(!history.solved());
}

#[test]
fn test_completed_challenges() {
    let mut challenge_history = ChallengeHistory::new();
    assert_eq!(challenge_history.completed_challenges(), 0);
    let mut config = ChallengeConfig::default();
    config.tasks = 3.into();
    let challenge = Challenge::new(&ChallengeType::default(), &config);
    challenge_history.add_challenge(challenge);
    assert_eq!(challenge_history.completed_challenges(), 0);
    let mut challenge = Challenge::new(&ChallengeType::default(), &config);
    challenge.challenge_result = options(&[1, 2, 3]);
    challenge_history.add_challenge(challenge);
    assert_eq!(challenge_history.completed_challenges(), 1);
}

#[test]
fn stats_of_one_configured_challenge() {
    let mut config = ChallengeConfig::default();
    config.tasks = 3.into();
    let mut history = ChallengeHistory::new();
    let mut complete = Challenge::new(&ChallengeType::default(), &config);
    complete.challenge_result = options(&[0, 2, 3]);
    history.add_challenge(complete);
    history.add_challenge(Challenge::new(&ChallengeType::default(), &config));
    let other = ChallengeConfig { id: "other".to_string(), ..ChallengeConfig::default() };
    let stats = (&config, &history);
    assert_eq!(stats.challenges(), 2);
    assert_eq!(stats.completed_challenges(), 1);
    assert_eq!(stats.performance(), 5);
    assert!(stats.solved());
    assert!(!(&other, &history).solved());
    assert_eq!(history.completed_challenges(), 1);
    assert!(!history.solved());
}

#[test]
fn new_performance_record_from_history() {
    let challenge = Challenge::new(&ChallengeType::default(), &ChallengeConfig::default());
    let mut challenge_history = ChallengeHistory::new();
    challenge_history.add_challenge(challenge);
    let performances = best_challenge_performances(&challenge_history);
    assert_eq!(performances.len(), 1);
    let total_challenges: usize = 1;
    let percentage = ((performances.len() as f64 / total_challenges as f64) * 100.0) as u8;
    let performance_record = PerformanceRecord::with_percentage(
        "game_path_id".to_string(),
        "profile_name".to_string(),
        performances,
        total_challenges,
        percentage,
        0,
    );
    assert_eq!(performance_record.game_path_id, "game_path_id");
    assert_eq!(performance_record.profile_name, "profile_name");
    assert_eq!(performance_record.total_challenges, 1);
    assert_eq!(performance_record.performance_percentage, 100);
}

#[test]
fn new_performance_record_from_history_multiple_challenges() {
    let mut challenge1 = Challenge::new(&ChallengeType::default(), &ChallengeConfig::default());
    let mut challenge2 = Challenge::new(&ChallengeType::default(), &ChallengeConfig::default());
    challenge1.start_time = Some(0);
    challenge1.end_time = Some(10_000);
    challenge2.start_time = Some(0);
    challenge2.end_time = Some(20_000);
    let mut challenge_history = ChallengeHistory::new();
    challenge_history.add_challenge(challenge1);
    challenge_history.add_challenge(challenge2);
    let performances = best_challenge_performances(&challenge_history);
    assert_eq!(performances.len(), 1);
    let total_challenges: usize = 1;
    let percentage = ((performances.len() as f64 / total_challenges as f64) * 100.0) as u8;
    let performance_record = PerformanceRecord::with_percentage(
        "game_path_id".to_string(),
        "profile_name".to_string(),
        performances,
        total_challenges,
        percentage,
        0,
    );
    assert_eq!(performance_record.game_path_id, "game_path_id");
    assert_eq!(performance_record.profile_name, "profile_name");
    assert_eq!(performance_record.total_challenges, 1);
    assert_eq!(performance_record.performance_percentage, 100);
}

#[test]
fn new_performance_record_from_history_multiple_challenges_with_different_elapsed_time() {
    let mut challenge1 = Challenge::new(&ChallengeType::default(), &ChallengeConfig::default());
    let mut challenge2 = Challenge::new(&ChallengeType::default(), &ChallengeConfig::default());
    challenge1.start_time = Some(0);
    challenge1.end_time = Some(10_000);
    challenge2.start_time = Some(0);
    challenge2.end_time = Some(20_000);
    let mut challenge_history = ChallengeHistory::new();
    challenge_history.add_challenge(challenge1);
    challenge_history.add_challenge(challenge2);
    let performances = best_challenge_performances(&challenge_history);
    assert_eq!(performances.len(), 1);
    assert_eq!(performances[0].2, 10 * 1000);
}

#[test]
fn performance_record_elapsed_time() {
    let mut challenge1 = Challenge::new(&ChallengeType::default(), &ChallengeConfig::default());
    let mut challenge2 = Challenge::new(&ChallengeType::default(), &ChallengeConfig::default());
    challenge1.start_time = Some(0);
    challenge1.end_time = Some(10_000);
    challenge2.start_time = Some(0);
    challenge2.end_time = Some(20_000);
    let mut challenge_history = ChallengeHistory::new();
    challenge_history.add_challenge(challenge1);
    challenge_history.add_challenge(challenge2);
    let performances = best_challenge_performances(&challenge_history);
    let record = PerformanceRecord::with_percentage(
        "game_path_id".to_string(),
        "profile_name".to_string(),
        performances,
        1,
        100,
        0,
    );
    assert_eq!(record.elapsed_time(), Some(10 * 1000));
    assert_eq!(record.end_time(), Some(10 * 1000));
}

#[test]
fn best_performances_are_ordered_by_time() {
    let mut fast = Challenge::new(&ChallengeType::default(), &ChallengeConfig { id: "fast".to_string(), ..Default::default() });
    fast.start_time = Some(0);
    fast.end_time = Some(1_000);
    let mut slow = Challenge::new(&ChallengeType::default(), &ChallengeConfig { id: "slow".to_string(), ..Default::default() });
    slow.start_time = Some(0);
    slow.end_time = Some(5_000);
    let mut better = slow.clone();
    better.challenge_result = options(&[0, 2]);
    better.end_time = Some(9_000);
    let mut history = ChallengeHistory::new();
    history.add_challenge(slow);
    history.add_challenge(fast);
    history.add_challenge(better);
    let performances = best_challenge_performances(&history);
    assert_eq!(
        performances,
        vec![("fast".to_string(), 0, 1_000), ("slow".to_string(), 10, 9_000)]
    );
}

#[test]
fn performance_record_end_time_out_of_range() {
    let record = PerformanceRecord::with_percentage(
        "game_path_id".to_string(),
        "profile_name".to_string(),
        vec![("challenge_id".to_string(), 100, 1)],
        1,
        100,
        i64::MAX,
    );
    assert_eq!(record.elapsed_time(), Some(1));
    assert_eq!(record.end_time(), None);
}
