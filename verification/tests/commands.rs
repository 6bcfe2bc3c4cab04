use konnektoren_core::challenges::challenge::Challenge;
use konnektoren_core::challenges::challenge_result::ChallengeResult;
use konnektoren_core::challenges::challenge_type::ChallengeType;
use konnektoren_core::challenges::custom::CustomChallengeResult;
use konnektoren_core::challenges::error::ChallengeError;
use konnektoren_core::challenges::informative::Informative;
use konnektoren_core::commands::challenge_command::ChallengeCommand;
use konnektoren_core::commands::command::{Command, CommandTrait};
use konnektoren_core::commands::command_type::CommandType;
use konnektoren_core::commands::error::CommandError;
use konnektoren_core::commands::game_command::GameCommand;
use konnektoren_core::commands::game_commands::{NextChallengeCommand, PreviousChallengeCommand};
use konnektoren_core::commands::parse::CommandMessage;
use konnektoren_core::game::{GameError, GameState};

#[test]
fn game_command_next_challenge() {
    let mut state = GameState::default();
    let command = GameCommand::NextChallenge;
    let result = command.execute(&mut state);
    assert!(result.is_ok());
    assert_eq!(state.current_challenge_index, 1);
}

#[test]
fn game_command_previous_challenge() {
    let mut state = GameState::default();
    let result = GameCommand::NextChallenge.execute(&mut state);
    assert!(result.is_ok());
    assert_eq!(state.current_challenge_index, 1);
    let result = GameCommand::PreviousChallenge.execute(&mut state);
    assert!(result.is_ok());
    assert_eq!(state.current_challenge_index, 0);
}

#[test]
fn next_challenge_no_more() {
    let mut state = GameState::default();
    let command = GameCommand::NextChallenge;
    for _ in 0..7 {
        command.execute(&mut state).unwrap();
    }
    assert_eq!(state.current_challenge_index, 7);
    let result = command.execute(&mut state);
    assert!(result.is_err());
    if let Err(error) = result {
        match error {
            CommandError::GameError(GameError::InvalidGameState(msg)) => assert_eq!(msg, "No more challenges"),
            _ => panic!("Unexpected error type: {:?}", error),
        }
    }
}

#[test]
fn previous_challenge_no_more() {
    let mut state = GameState::default();
    let result = GameCommand::PreviousChallenge.execute(&mut state);
    assert!(result.is_err());
    if let Err(error) = result {
        match error {
            CommandError::GameError(GameError::InvalidGameState(msg)) => assert_eq!(msg, "No previous challenges"),
            _ => panic!("Unexpected error type: {:?}", error),
        }
    }
}

#[test]
fn game_command_test_game_path_not_found() {
    let mut state = GameState::default();
    state.current_game_path = 999;
    let result = GameCommand::NextChallenge.execute(&mut state);
    assert!(result.is_err());
    if let Err(error) = result {
        match error {
            CommandError::GameError(GameError::GamePathNotFound) => {},
            _ => panic!("Unexpected error type: {:?}", error),
        }
    }
}

#[test]
fn next_challenge_starts_the_configured_challenge() {
    let mut state = GameState::default();
    GameCommand::NextChallenge.execute(&mut state).unwrap();
    assert_eq!(state.challenge.challenge_config.id, "articles-1");
    assert_eq!(state.challenge.challenge_type.id(), "articles-1");
    assert!(state.challenge.start_time.is_some());
    assert_eq!(state.current_task_index, 0);
    match &state.challenge.challenge_type {
        ChallengeType::MultipleChoice(d) => assert_eq!(d.questions.len(), 3),
        _ => panic!("Invalid challenge type"),
    }
}

#[test]
fn game_commands_next_challenge() {
    let mut state = GameState::default();
    let command = NextChallengeCommand();
    command.execute(&mut state).unwrap();
    assert_eq!(state.current_challenge_index, 1);
}

#[test]
fn game_commands_previous_challenge() {
    let mut state = GameState::default();
    state.current_challenge_index = 1;
    let command = PreviousChallengeCommand();
    command.execute(&mut state).unwrap();
    assert_eq!(state.current_challenge_index, 0);
}

#[test]
fn previous_challenge_noop() {
    let mut state = GameState::default();
    let command = PreviousChallengeCommand();
    assert!(command.execute(&mut state).is_err());
    assert_eq!(state.current_challenge_index, 0);
}

#[test]
fn next_challenge_command_stops_at_the_last() {
    let mut state = GameState::default();
    let command = NextChallengeCommand();
    for _ in 0..7 {
        command.execute(&mut state).unwrap();
    }
    assert_eq!(command.execute(&mut state), Err("No more challenges".to_string()));
    assert_eq!(state.current_challenge_index, 7);
}

#[test]
fn test_solve_option() {
    let mut state = GameState::default();
    state.current_game_path = 0;
    state.current_challenge_index = 0;
    state.current_task_index = 0;
    let result = ChallengeCommand::solve_option(&mut state, 0);
    assert!(result.is_ok());
    assert_eq!(state.current_task_index, 1);
}

#[test]
fn test_solve_option_invalid() {
    let mut state = GameState::default();
    let result = ChallengeCommand::solve_option(&mut state, 999);
    assert!(result.is_err());
    if let Err(error) = result {
        match error {
            CommandError::ChallengeError(ChallengeError::InvalidOptionId(999)) => {},
            _ => panic!("Unexpected error type: {:?}", error),
        }
    }
}

#[test]
fn test_next_task() {
    let mut state = GameState::default();
    let result = ChallengeCommand::next_task(&mut state);
    assert!(result.is_ok());
    assert_eq!(state.current_task_index, 1);
}

#[test]
fn test_next_task_no_more() {
    let mut state = GameState::default();
    let current_game_path = &state.game.game_paths[state.current_game_path];
    let challenge_config = &current_game_path.challenges[state.current_challenge_index];
    let max_tasks = challenge_config.tasks.len();
    state.current_task_index = max_tasks - 1;
    let result = ChallengeCommand::next_task(&mut state);
    assert!(result.is_err());
    if let Err(error) = result {
        match error {
            CommandError::ChallengeError(ChallengeError::NoMoreTasks) => {},
            _ => panic!("Unexpected error type: {:?}", error),
        }
    }
}

#[test]
fn test_previous_task() {
    let mut state = GameState::default();
    state.current_task_index = 1;
    let result = ChallengeCommand::previous_task(&mut state);
    assert!(result.is_ok());
    assert_eq!(state.current_task_index, 0);
}

#[test]
fn test_previous_task_no_more() {
    let mut state = GameState::default();
    let result = ChallengeCommand::previous_task(&mut state);
    assert!(result.is_err());
    if let Err(error) = result {
        match error {
            CommandError::ChallengeError(ChallengeError::NoPreviousTasks) => {},
            _ => panic!("Unexpected error type: {:?}", error),
        }
    }
}

#[test]
fn test_finish_challenge() {
    let mut state = GameState::default();
    state.current_task_index = 1;
    let result = ChallengeCommand::finish_challenge(&mut state, &None);
    assert!(result.is_ok());
    assert!(state.challenge.end_time.is_some());
}

#[test]
fn finish_with_result_takes_it() {
    let mut state = GameState::default();
    let result = ChallengeResult::Informative;
    ChallengeCommand::Finish(Some(result)).execute(&mut state).unwrap();
    assert_eq!(state.challenge.challenge_result, ChallengeResult::Informative);
}

#[test]
fn test_execute() {
    let mut state = GameState::default();
    let result = ChallengeCommand::SolveOption(0).execute(&mut state);
    assert!(result.is_ok());
    assert_eq!(state.current_task_index, 1);
}

#[test]
fn test_invalid_challenge_type() {
    let mut state = GameState::default();
    state.challenge.challenge_type = ChallengeType::Informative(Informative::default());
    let result = ChallengeCommand::solve_option(&mut state, 0);
    assert!(result.is_err());
    if let Err(error) = result {
        match error {
            CommandError::ChallengeError(ChallengeError::InvalidChallengeType) => {},
            _ => panic!("Unexpected error type: {:?}", error),
        }
    }
}

#[test]
fn challenge_command_test_game_path_not_found() {
    let mut state = GameState::default();
    state.current_game_path = 999;
    let result = ChallengeCommand::next_task(&mut state);
    assert!(result.is_err());
    if let Err(error) = result {
        match error {
            CommandError::GameError(GameError::GamePathNotFound) => {},
            _ => panic!("Unexpected error type: {:?}", error),
        }
    }
}

#[test]
fn start_command_starts_the_challenge() {
    let mut state = GameState::default();
    state.current_task_index = 3;
    let challenge = Challenge::default();
    Command::Challenge(ChallengeCommand::Start(challenge)).execute(&mut state).unwrap();
    assert!(state.challenge.start_time.is_some());
    assert_eq!(state.current_task_index, 0);
}

#[test]
fn command_types() {
    assert_eq!(Command::Game(GameCommand::NextChallenge).get_type(), CommandType::Game);
    assert_eq!(Command::Challenge(ChallengeCommand::NextTask).get_type(), CommandType::Challenge);
}

fn message(kind: Option<&str>, action: Option<&str>) -> CommandMessage {
    CommandMessage {
        kind: kind.map(|s| s.to_string()),
        action: action.map(|s| s.to_string()),
        option_index: None,
        result: None,
    }
}

#[test]
fn test_parse_game_command() {
    let command = Command::parse(&message(Some("Game"), Some("NextChallenge"))).unwrap();
    assert_eq!(command, Command::Game(GameCommand::NextChallenge));
}

#[test]
fn test_parse_challenge_command() {
    let command = Command::parse(&message(Some("Challenge"), Some("NextTask"))).unwrap();
    assert_eq!(command, Command::Challenge(ChallengeCommand::NextTask));
}

#[test]
fn test_parse_challenge_command_with_option() {
    let mut msg = message(Some("Challenge"), Some("SolveOption"));
    msg.option_index = Some(Some(0));
    let command = Command::parse(&msg).unwrap();
    assert_eq!(command, Command::Challenge(ChallengeCommand::SolveOption(0)));
}

#[test]
fn test_parse_challenge_command_with_result() {
    let mut msg = message(Some("Challenge"), Some("Finish"));
    let result = CustomChallengeResult { id: "123".to_string(), score: 0, performance_bits: 0.0f64.to_bits(), data: "{}".to_string() };
    msg.result = Some(Ok(result.clone()));
    let command = Command::parse(&msg).unwrap();
    assert_eq!(command, Command::Challenge(ChallengeCommand::Finish(Some(ChallengeResult::Custom(result)))));
}

#[test]
fn test_parse_unknown_command() {
    let result = Command::parse(&message(Some("Unknown"), Some("NextTask")));
    assert!(result.is_err());
    assert_eq!(result.unwrap_err(), CommandError::UnknownCommandType("Unknown".to_string()));
}

#[test]
fn test_parse_missing_data() {
    let result = Command::parse(&message(Some("Challenge"), None));
    assert!(result.is_err());
    assert_eq!(result.unwrap_err(), CommandError::MissingData);
}

#[test]
fn test_parse_missing_option_index() {
    let result = Command::parse(&message(Some("Challenge"), Some("SolveOption")));
    assert!(result.is_err());
    assert_eq!(result.unwrap_err(), CommandError::MissingData);
}

#[test]
fn test_parse_invalid_json() {
    let mut msg = message(Some("Challenge"), Some("SolveOption"));
    msg.option_index = Some(None);
    let result = Command::parse(&msg);
    assert!(result.is_err());
    assert!(matches!(result.unwrap_err(), CommandError::InvalidData(_)));
}

#[test]
fn parse_reports_unreadable_result_and_unknown_action() {
    let mut msg = message(Some("Challenge"), Some("Finish"));
    msg.result = Some(Err("missing field `id`".to_string()));
    assert_eq!(Command::parse(&msg), Err(CommandError::ParseError("missing field `id`".to_string())));
    assert_eq!(
        Command::parse(&message(Some("Game"), Some("Jump"))),
        Err(CommandError::UnknownCommandType("Jump".to_string()))
    );
    assert_eq!(Command::parse(&message(None, Some("NextTask"))), Err(CommandError::MissingData));
}

#[test]
fn moving_needs_only_the_challenge_moved_to_to_be_makeable() {
    let mut state = GameState::default();
    state.game.game_paths[0].challenges[7].tasks = konnektoren_core::task_pattern::TaskPattern::Range(8..=2);
    assert!(!state.game.can_create("konnektoren-3"));
    assert!(state.game.can_create("articles-1"));
    assert!(state.game.can_create("no-such-challenge"));
    assert!(GameCommand::NextChallenge.can_run(&state));
    assert_eq!(GameCommand::NextChallenge.execute(&mut state), Ok(()));
    assert_eq!(state.current_challenge_index, 1);
    state.current_challenge_index = 6;
    assert!(!GameCommand::NextChallenge.can_run(&state));
    assert!(GameCommand::PreviousChallenge.can_run(&state));
}
