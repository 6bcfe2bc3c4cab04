use konnektoren_core::challenges::challenge::Challenge;
use konnektoren_core::challenges::challenge_config::ChallengeConfig;
use konnektoren_core::challenges::challenge_result::ChallengeResult;
use konnektoren_core::challenges::challenge_type::ChallengeType;
use konnektoren_core::challenges::multiple_choice::MultipleChoiceOption;
use konnektoren_core::controller::plugins::{ChallengeFinishPlugin, DebugPlugin, GameXpPlugin};
use konnektoren_core::game::GameState;

fn answers(ids: &[usize]) -> ChallengeResult {
    ChallengeResult::MultipleChoice(ids.iter().map(|&id| MultipleChoiceOption { id, name: String::new() }).collect())
}

#[test]
fn test_debug_plugin() {
    let debug_plugin = DebugPlugin::new();
    assert_eq!(debug_plugin.name(), "DebugPlugin");
    assert_eq!(ChallengeFinishPlugin.name(), "ChallengeFinishPlugin");
    assert_eq!(GameXpPlugin.name(), "GameXpPlugin");
}

#[test]
fn finishing_the_played_challenge_records_it() {
    let mut state = GameState::default();
    let finished = state.challenge.clone();
    let result = answers(&[0, 1]);
    assert!(ChallengeFinishPlugin::handle_challenge_finish(&mut state, &finished, &result));
    assert_eq!(state.challenge.challenge_result, result);
    assert_eq!(state.game.challenge_history.len(), 1);
    assert_eq!(state.game.challenge_history.challenges[0], finished);
}

#[test]
fn finishing_another_challenge_changes_nothing() {
    let mut state = GameState::default();
    let other = Challenge::new(&ChallengeType::default(), &ChallengeConfig { id: "other".to_string(), ..Default::default() });
    assert!(!ChallengeFinishPlugin::handle_challenge_finish(&mut state, &other, &answers(&[0])));
    assert!(state.game.challenge_history.is_empty());
    assert!(state.challenge.challenge_result.is_empty());
}

#[test]
fn experience_is_a_tenth_of_the_performance() {
    let mut state = GameState::default();
    GameXpPlugin::update_game_xp(&mut state, &answers(&[0, 1, 2, 3, 4]));
    assert_eq!(state.game.xp, 5);
    GameXpPlugin::update_game_xp(&mut state, &answers(&[0, 1, 2, 3, 4, 0, 1, 2, 3, 4]));
    assert_eq!(state.game.xp, 15);
}
