use konnektoren_core::challenges::challenge_config::ChallengeConfig;
use konnektoren_core::challenges::challenge_variant::ChallengeVariant;
use konnektoren_core::challenges::custom::CustomChallengeState;
use konnektoren_core::challenges::dialog::{Dialog, DialogAnswer, DialogTurn, Speaker};
use konnektoren_core::challenges::gap_fill::{Gap, GapFill, GapFillAnswer, GapFillQuestion};
use konnektoren_core::challenges::informative::Informative;
use konnektoren_core::challenges::multiple_choice::{MultipleChoice, MultipleChoiceOption, Question};
use konnektoren_core::challenges::ordering::{OrderingChallenge, OrderingItem, OrderingResult};
use konnektoren_core::challenges::placeholder::{Placeholder, PlaceholderType};
use konnektoren_core::challenges::review::Review;
use konnektoren_core::challenges::sort_table::{SortTable, SortTableColumn, SortTableRow};
use konnektoren_core::challenges::vocabulary::{Vocabulary, VocabularyItem};
use konnektoren_core::task_pattern::TaskPattern;

#[test]
fn default_challenge_config() {
    let challenge_config = ChallengeConfig::default();
    assert_eq!(challenge_config.id, "123");
    assert_eq!(challenge_config.name, "Konnektoren #1");
    assert_eq!(challenge_config.description, "Your first Konnektoren challenge!");
    assert_eq!(challenge_config.challenge, "konnektoren");
    assert_eq!(challenge_config.tasks, 10.into());
    assert_eq!(challenge_config.unlock_points, 0);
}

#[test]
fn challenge_variant_test_strum_into_static_str() {
    assert_eq!(<ChallengeVariant as Into<&'static str>>::into(ChallengeVariant::MultipleChoice), "multiple-choice");
    assert_eq!(<ChallengeVariant as Into<&'static str>>::into(ChallengeVariant::ContextualChoice), "contextual-choice");
    assert_eq!(<ChallengeVariant as Into<&'static str>>::into(ChallengeVariant::MultipleChoice4), "multiple-choice4");
}

#[test]
fn challenge_variant_test_variant_iteration() {
    let variants: Vec<ChallengeVariant> = ChallengeVariant::iter();
    assert_eq!(variants.len(), 9);
    assert!(variants.contains(&ChallengeVariant::MultipleChoice));
    assert!(variants.contains(&ChallengeVariant::MultipleChoice4));
    assert!(variants.contains(&ChallengeVariant::CustomPackage));
}

#[test]
fn test_variant_display() {
    assert_eq!(ChallengeVariant::MultipleChoice.to_string(), "Multiple Choice");
    assert_eq!(ChallengeVariant::ContextualChoice.to_string(), "Contextual Choice");
    assert_eq!(ChallengeVariant::MultipleChoice4.to_string(), "Multiple Choice (4 Options)");
}

#[test]
fn test_default_variant() {
    assert_eq!(ChallengeVariant::default(), ChallengeVariant::MultipleChoice);
}

#[test]
fn variant_keys_and_titles() {
    assert_eq!(ChallengeVariant::CustomPackage.key(), "custom-package");
    assert_eq!(ChallengeVariant::InformativeMarkdown.key(), "informative-markdown");
    assert_eq!(ChallengeVariant::SortTable.to_string(), "Sort Table");
}

#[test]
fn new_default_custom_challenge_state() {
    let state = CustomChallengeState::default();
    assert_eq!(state.current_index, 0);
    assert_eq!(state.correct_answers, 0);
    assert_eq!(state.total_questions, 0);
    assert!(!state.is_finished);
    assert_eq!(state.start_time, None);
    assert_eq!(state.end_time, None);
}

#[test]
fn default_answer() {
    let answer = DialogAnswer::default();
    assert_eq!(answer.turn_index, 0);
    assert_eq!(answer.selected_option, 0);
}

#[test]
fn fields_are_preserved() {
    let answer = DialogAnswer { turn_index: 7, selected_option: 2 };
    assert_eq!(answer.turn_index, 7);
    assert_eq!(answer.selected_option, 2);
}

fn observer_dialog() -> Dialog {
    Dialog {
        id: "obs".to_string(),
        name: "Observer".to_string(),
        description: "Pure observer dialog".to_string(),
        lang: "de".to_string(),
        scenario: None,
        image: None,
        speakers: [
            Speaker { id: "a".to_string(), name: "A".to_string(), icon: None },
            Speaker { id: "b".to_string(), name: "B".to_string(), icon: None },
        ],
        turns: vec![
            DialogTurn { speaker: "a".to_string(), text: "Hallo!".to_string(), audio: None, options: None, correct_option: None },
            DialogTurn { speaker: "b".to_string(), text: "Hallo!".to_string(), audio: None, options: None, correct_option: None },
        ],
    }
}

fn plain(speaker: &str, text: &str) -> DialogTurn {
    DialogTurn { speaker: speaker.to_string(), text: text.to_string(), audio: None, options: None, correct_option: None }
}

fn quiz(speaker: &str, text: &str, options: [&str; 3], correct: usize) -> DialogTurn {
    DialogTurn {
        speaker: speaker.to_string(),
        text: text.to_string(),
        audio: None,
        options: Some(options.iter().map(|o| o.to_string()).collect()),
        correct_option: Some(correct),
    }
}

fn quiz_dialog() -> Dialog {
    Dialog {
        id: "quiz".to_string(),
        name: "Quiz".to_string(),
        description: "Dialog with interactive turns".to_string(),
        lang: "de".to_string(),
        scenario: Some("Am Markt".to_string()),
        image: Some("fa-solid fa-store".to_string()),
        speakers: [
            Speaker { id: "baecker".to_string(), name: "Bäcker".to_string(), icon: Some("fa-solid fa-bread-slice".to_string()) },
            Speaker { id: "kunde".to_string(), name: "Kunde".to_string(), icon: None },
        ],
        turns: vec![
            plain("baecker", "Guten Morgen! Was darf es sein?"),
            quiz(
                "kunde",
                "Ich hätte gerne vier Brötchen, bitte.",
                ["Ich hätte gerne vier Brötchen, bitte.", "Guten Abend! Vier Brötchen geben.", "Hallo! Was haben Sie?"],
                0,
            ),
            plain("baecker", "Gerne! Sonst noch etwas?"),
            quiz(
                "kunde",
                "Ja, ein Vollkornbrot, bitte.",
                ["Nein, das ist alles.", "Ja, ein Vollkornbrot, bitte.", "Ich weiß nicht, was das ist."],
                1,
            ),
            plain("baecker", "Sehr gerne. Das macht zwei Euro achtzig."),
            quiz(
                "kunde",
                "Hier, bitte. Danke schön!",
                ["Hier, bitte. Danke schön!", "Entschuldigung. Auf Wiedersehen!", "Das ist zu teuer!"],
                0,
            ),
            plain("baecker", "Danke! Auf Wiedersehen!"),
        ],
    }
}

#[test]
fn default_dialog_id_and_lang() {
    let d = Dialog::default();
    assert_eq!(d.id, "dialog_begruessung");
    assert_eq!(d.lang, "de");
}

#[test]
fn default_dialog_has_two_speakers() {
    let d = Dialog::default();
    assert_eq!(d.speakers.len(), 2);
}

#[test]
fn default_dialog_speakers_have_distinct_ids() {
    let d = Dialog::default();
    assert_ne!(d.speakers[0].id, d.speakers[1].id);
}

#[test]
fn default_dialog_has_turns() {
    let d = Dialog::default();
    assert!(!d.turns.is_empty());
}

#[test]
fn default_dialog_has_three_quiz_turns() {
    assert_eq!(Dialog::default().quiz_turn_count(), 3);
}

#[test]
fn observer_dialog_has_no_quiz_turns() {
    assert_eq!(observer_dialog().quiz_turn_count(), 0);
}

#[test]
fn quiz_dialog_has_correct_quiz_turn_count() {
    assert_eq!(quiz_dialog().quiz_turn_count(), 3);
}

#[test]
fn quiz_turns_iterator_yields_correct_indices() {
    let dialog = quiz_dialog();
    let indices: Vec<usize> = dialog.quiz_turns().iter().map(|(i, _)| *i).collect();
    assert_eq!(indices, vec![1, 3, 5]);
}

#[test]
fn quiz_turns_all_have_is_quiz_turn_true() {
    for (_, turn) in quiz_dialog().quiz_turns() {
        assert!(turn.is_quiz_turn());
    }
}

#[test]
fn speaker_by_id_finds_first_speaker() {
    let d = Dialog::default();
    let speaker = d.speaker_by_id("anna").expect("anna should exist");
    assert_eq!(speaker.name, "Anna");
}

#[test]
fn speaker_by_id_finds_second_speaker() {
    let d = Dialog::default();
    let speaker = d.speaker_by_id("ben").expect("ben should exist");
    assert_eq!(speaker.name, "Ben");
}

#[test]
fn speaker_by_id_returns_none_for_unknown_id() {
    let d = Dialog::default();
    assert!(d.speaker_by_id("unknown").is_none());
}

#[test]
fn scenario_is_some_when_set() {
    let d = quiz_dialog();
    assert_eq!(d.scenario, Some("Am Markt".to_string()));
}

#[test]
fn scenario_is_none_for_observer() {
    let d = observer_dialog();
    assert!(d.scenario.is_none());
}

#[test]
fn image_is_some_when_set() {
    let d = quiz_dialog();
    assert!(d.image.is_some());
}

#[test]
fn image_is_none_for_observer() {
    let d = observer_dialog();
    assert!(d.image.is_none());
}

#[test]
fn dialog_clone_produces_equal_value() {
    let original = Dialog::default();
    let cloned = original.clone();
    assert_eq!(original, cloned);
}

#[test]
fn different_ids_are_not_equal() {
    let mut other = Dialog::default();
    other.id = "different".to_string();
    assert_ne!(Dialog::default(), other);
}

#[test]
fn default_speaker_fields() {
    let speaker = Speaker::default();
    assert_eq!(speaker.id, "speaker");
    assert_eq!(speaker.name, "Speaker");
    assert_eq!(speaker.icon, None);
}

#[test]
fn default_turn_has_expected_fields() {
    let turn = DialogTurn::default();
    assert_eq!(turn.speaker, "speaker");
    assert_eq!(turn.text, "Hello!");
    assert!(turn.audio.is_none());
    assert!(turn.options.is_none());
    assert!(turn.correct_option.is_none());
}

#[test]
fn is_quiz_turn_when_options_and_correct_option_present() {
    let turn = DialogTurn {
        speaker: "a".to_string(),
        text: "Guten Morgen!".to_string(),
        audio: None,
        options: Some(vec!["Guten Morgen!".to_string(), "Gute Nacht!".to_string()]),
        correct_option: Some(0),
    };
    assert!(turn.is_quiz_turn());
}

#[test]
fn not_quiz_turn_without_options() {
    let turn = DialogTurn::default();
    assert!(!turn.is_quiz_turn());
}

#[test]
fn not_quiz_turn_with_options_but_no_correct_option() {
    let turn = DialogTurn {
        speaker: "a".to_string(),
        text: "Hallo!".to_string(),
        audio: None,
        options: Some(vec!["Hallo!".to_string()]),
        correct_option: None,
    };
    assert!(!turn.is_quiz_turn());
}

#[test]
fn not_quiz_turn_with_correct_option_but_no_options() {
    let turn = DialogTurn {
        speaker: "a".to_string(),
        text: "Hallo!".to_string(),
        audio: None,
        options: None,
        correct_option: Some(0),
    };
    assert!(!turn.is_quiz_turn());
}

#[test]
fn turn_clone_produces_equal_value() {
    let original = DialogTurn {
        speaker: "anna".to_string(),
        text: "Tschüss!".to_string(),
        audio: Some("audio/tschuess.mp3".to_string()),
        options: None,
        correct_option: None,
    };
    let cloned = original.clone();
    assert_eq!(original, cloned);
}

#[test]
fn different_speakers_are_not_equal() {
    let a = DialogTurn { speaker: "anna".to_string(), ..DialogTurn::default() };
    let b = DialogTurn { speaker: "ben".to_string(), ..DialogTurn::default() };
    assert_ne!(a, b);
}

fn berlin_gap_fill() -> GapFill {
    GapFill {
        id: "test".to_string(),
        name: "Test".to_string(),
        description: "Test".to_string(),
        lang: "de".to_string(),
        questions: vec![GapFillQuestion {
            sentence: "Ich __ nach Berlin __ (fahren).".to_string(),
            gaps: vec![
                Gap { position: 0, options: vec!["bin".to_string(), "habe".to_string()], correct: "bin".to_string() },
                Gap {
                    position: 1,
                    options: vec!["gefahren".to_string(), "gefahrt".to_string()],
                    correct: "gefahren".to_string(),
                },
            ],
            hints: vec!["Test hint".to_string()],
            translation: "Test translation".to_string(),
            explanation: "Test explanation".to_string(),
        }],
    }
}

#[test]
fn test_check_answer() {
    let gap_fill = berlin_gap_fill();
    let correct_answer = GapFillAnswer { question_index: 0, answers: vec!["bin".to_string(), "gefahren".to_string()] };
    let wrong_answer = GapFillAnswer { question_index: 0, answers: vec!["habe".to_string(), "gefahren".to_string()] };
    assert!(gap_fill.check_answer(&correct_answer));
    assert!(!gap_fill.check_answer(&wrong_answer));
}

#[test]
fn test_get_feedback_correct_and_incorrect() {
    let gap_fill = berlin_gap_fill();
    let correct_answer = GapFillAnswer { question_index: 0, answers: vec!["bin".to_string(), "gefahren".to_string()] };
    let wrong_answer = GapFillAnswer { question_index: 0, answers: vec!["habe".to_string(), "gefahren".to_string()] };
    let invalid_answer = GapFillAnswer { question_index: 99, answers: vec![] };
    assert!(gap_fill.get_feedback(&correct_answer).starts_with("Correct!"));
    assert!(gap_fill.get_feedback(&wrong_answer).starts_with("Incorrect."));
    assert_eq!(gap_fill.get_feedback(&invalid_answer), "Invalid question index");
}

#[test]
fn gap_fill_feedback_texts() {
    let gap_fill = berlin_gap_fill();
    let correct_answer = GapFillAnswer { question_index: 0, answers: vec!["bin".to_string(), "gefahren".to_string()] };
    let short_answer = GapFillAnswer { question_index: 0, answers: vec!["bin".to_string()] };
    assert_eq!(gap_fill.get_feedback(&correct_answer), "Correct! Test explanation");
    assert_eq!(gap_fill.get_feedback(&short_answer), "Incorrect. Hints:\n- Test hint\n");
    assert!(!gap_fill.check_answer(&short_answer));
}

#[test]
fn default_gap_fill() {
    let gap_fill = GapFill::default();
    assert_eq!(gap_fill.id, "past-tense");
    assert_eq!(gap_fill.questions.len(), 2);
    assert_eq!(gap_fill.questions[0].gaps[0].correct, "bin");
}

#[test]
fn mod_new_dataset() {
    let options = vec![
        MultipleChoiceOption { id: 1, name: "Option 1".to_string() },
        MultipleChoiceOption { id: 2, name: "Option 2".to_string() },
    ];
    let questions = vec![
        Question { question: "Question 1".to_string(), help: "Help 1".to_string(), option: 1, image: None },
        Question { question: "Question 2".to_string(), help: "Help 2".to_string(), option: 2, image: None },
    ];
    let dataset = MultipleChoice {
        id: "123".to_string(),
        name: "Test".to_string(),
        lang: "de".to_string(),
        options,
        questions,
    };
    assert_eq!(dataset.name, "Test");
    assert_eq!(dataset.options.len(), 2);
    assert_eq!(dataset.questions.len(), 2);

    let columns = vec![
        SortTableColumn { id: "column1".to_string(), title: "Column 1".to_string(), description: "Description 1".to_string() },
        SortTableColumn { id: "column2".to_string(), title: "Column 2".to_string(), description: "Description 2".to_string() },
    ];
    let rows = vec![
        SortTableRow { id: 1, values: vec!["Value 1".to_string(), "Value 2".to_string()] },
        SortTableRow { id: 2, values: vec!["Value 3".to_string(), "Value 4".to_string()] },
    ];
    let dataset = SortTable {
        id: "123".to_string(),
        name: "Test".to_string(),
        description: "Test".to_string(),
        columns,
        rows,
    };
    assert_eq!(dataset.id, "123");
    assert_eq!(dataset.name, "Test");
    assert_eq!(dataset.description, "Test");
    assert_eq!(dataset.columns.len(), 2);
    assert_eq!(dataset.rows.len(), 2);
}

#[test]
fn new_ordering() {
    let items = vec![
        OrderingItem { elements: vec!["A".to_string(), "B".to_string(), "C".to_string()], correct_order: vec![0, 1, 2] },
        OrderingItem { elements: vec!["D".to_string(), "E".to_string(), "F".to_string()], correct_order: vec![2, 1, 0] },
    ];
    let ordering = OrderingChallenge {
        id: "123".to_string(),
        name: "Test".to_string(),
        description: "Description".to_string(),
        items,
    };
    assert_eq!(ordering.id, "123");
    assert_eq!(ordering.name, "Test");
    assert_eq!(ordering.description, "Description");
    assert_eq!(ordering.items.len(), 2);
    assert_eq!(ordering.items[0].elements.len(), 3);
    assert_eq!(ordering.items[0].correct_order.len(), 3);
    assert_eq!(ordering.items[1].elements.len(), 3);
    assert_eq!(ordering.items[1].correct_order.len(), 3);
}

#[test]
fn test_ordering_result() {
    let result = OrderingResult { order: vec![2, 0, 1] };
    assert_eq!(result.order, vec![2, 0, 1]);
}

#[test]
fn test_ordering_result_default() {
    let result = OrderingResult::default();
    assert!(result.order.is_empty());
}

#[test]
fn default() {
    let dataset = Placeholder::default();
    assert_eq!(dataset.id, "placeholder-adjective-declension");
    assert_eq!(dataset.name, "Coming Soon: Adjective Declension");
    assert_eq!(dataset.type_, PlaceholderType::ComingSoon);
}

#[test]
fn new_review() {
    let challenge_id = "123".to_string();
    let rating = 5;
    let review = Review { challenge_id: challenge_id.clone(), rating, comment: None };
    assert_eq!(review.challenge_id, challenge_id);
    assert_eq!(review.rating, rating);
    assert_eq!(review.comment, None);
}

#[test]
fn default_dataset() {
    let dataset = SortTable::default();
    assert_eq!(dataset.id, "personal_pronouns");
    assert_eq!(dataset.name, "Personal Pronouns");
    assert_eq!(dataset.description, "Match the personal pronouns in their correct case (Nominativ, Akkusativ, Dativ)");
    assert_eq!(dataset.columns.len(), 3);
    assert_eq!(dataset.rows.len(), 6);
}

#[test]
fn new_vocabulary() {
    let id = "vocab-test".to_string();
    let name = "Test Vocabulary".to_string();
    let description = "A test vocabulary set".to_string();
    let icon = Some("fa-solid fa-book".to_string());
    let lang = "en".to_string();
    let items = vec![
        VocabularyItem {
            id: 0,
            text: "hello".to_string(),
            translation: Some("hola".to_string()),
            icon: Some("fa-solid fa-hand-wave".to_string()),
            phonetic: Some("/həˈloʊ/".to_string()),
        },
        VocabularyItem {
            id: 1,
            text: "world".to_string(),
            translation: Some("mundo".to_string()),
            icon: Some("fa-solid fa-globe".to_string()),
            phonetic: Some("/wɜːrld/".to_string()),
        },
    ];
    let vocabulary = Vocabulary {
        id: id.clone(),
        name: name.clone(),
        description: description.clone(),
        icon: icon.clone(),
        lang: lang.clone(),
        items: items.clone(),
    };
    assert_eq!(vocabulary.id, id);
    assert_eq!(vocabulary.name, name);
    assert_eq!(vocabulary.description, description);
    assert_eq!(vocabulary.icon, icon);
    assert_eq!(vocabulary.lang, lang);
    assert_eq!(vocabulary.items.len(), 2);
    assert_eq!(vocabulary.items, items);
}

#[test]
fn test_vocabulary_item_default() {
    let item = VocabularyItem::default();
    assert_eq!(item.id, 0);
    assert_eq!(item.text, "");
    assert_eq!(item.translation, None);
    assert_eq!(item.icon, None);
    assert_eq!(item.phonetic, None);
}

#[test]
fn default_vocabulary() {
    let vocabulary = Vocabulary::default();
    assert_eq!(vocabulary.id, "vocabulary-example");
    assert_eq!(vocabulary.name, "Basic German Vocabulary");
    assert_eq!(vocabulary.description, "Learn essential German words with pronunciation");
    assert_eq!(vocabulary.icon, Some("fa-solid fa-book-open".to_string()));
    assert_eq!(vocabulary.lang, "de");
    assert!(!vocabulary.items.is_empty());
}

#[test]
fn default_informative() {
    let informative = Informative::default();
    assert_eq!(informative.id, "personal_pronouns_info");
    assert_eq!(informative.text.len(), 2);
    assert_eq!(informative.text[1].language, "de");
}

#[test]
fn config_tasks_come_from_patterns() {
    let config = ChallengeConfig { tasks: TaskPattern::Exact(3), ..ChallengeConfig::default() };
    assert_eq!(config.tasks.len(), 3);
}
