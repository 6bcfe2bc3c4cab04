//! Two-speaker dialog challenges: watched as a chat, or played as a quiz.

use crate::equality::Equals;
use vstd::prelude::*;

verus! {

/// A character taking part in a [`Dialog`] challenge.
///
/// Every dialog has exactly two characters. Each turn in the dialog
/// references one by its `id`.
#[derive(Debug, PartialEq)]
pub struct Speaker {
    /// Unique key used by [`DialogTurn::speaker`] to bind a turn to this character.
    pub id: String,
    /// Character name displayed above each chat bubble in the game UI.
    pub name: String,
    /// FontAwesome class or image path used as the character's in-game avatar.
    pub icon: Option<String>,
}

/// The value of a [`Speaker`].
pub struct SpeakerView {
    pub id: Seq<char>,
    pub name: Seq<char>,
    pub icon: Option<Seq<char>>,
}

impl DeepView for Speaker {
    type V = SpeakerView;

    open spec fn deep_view(&self) -> SpeakerView {
        SpeakerView {
            id: self.id@,
            name: self.name@,
            icon: self.icon.deep_view(),
        }
    }
}

impl View for Speaker {
    type V = SpeakerView;

    open spec fn view(&self) -> SpeakerView {
        self.deep_view()
    }
}

impl Clone for Speaker {
    fn clone(&self) -> (r: Self)
        ensures
            r@ == self@,
    {
        let id = self.id.clone();
        let name = self.name.clone();
        let icon = self.icon.clone();
        Speaker { id, name, icon }
    }
}

impl Equals for Speaker {
    fn equals(&self, other: &Self) -> (r: bool) {
        self.id.equals(&other.id)
            && self.name.equals(&other.name)
            && self.icon.equals(&other.icon)
    }
}

/// A single utterance in a [`Dialog`] challenge.
///
/// A turn is an *interactive turn* when both `options` and `correct_option` are
/// present.
#[derive(Debug, PartialEq)]
pub struct DialogTurn {
    /// References `Speaker.id`: which character delivers this line.
    pub speaker: String,
    /// The correct line of dialog for this turn.
    pub text: String,
    /// Optional audio file reference played when the turn is revealed.
    pub audio: Option<String>,
    /// Candidate lines the player may choose from in Quiz mode.
    pub options: Option<Vec<String>>,
    /// Index into `options` that awards the point.
    pub correct_option: Option<usize>,
}

/// The value of a [`DialogTurn`].
pub struct DialogTurnView {
    pub speaker: Seq<char>,
    pub text: Seq<char>,
    pub audio: Option<Seq<char>>,
    pub options: Option<Seq<Seq<char>>>,
    pub correct_option: Option<usize>,
}

impl DeepView for DialogTurn {
    type V = DialogTurnView;

    open spec fn deep_view(&self) -> DialogTurnView {
        DialogTurnView {
            speaker: self.speaker@,
            text: self.text@,
            audio: self.audio.deep_view(),
            options: self.options.deep_view(),
            correct_option: self.correct_option.deep_view(),
        }
    }
}

impl View for DialogTurn {
    type V = DialogTurnView;

    open spec fn view(&self) -> DialogTurnView {
        self.deep_view()
    }
}

impl Clone for DialogTurn {
    fn clone(&self) -> (r: Self)
        ensures
            r@ == self@,
    {
        let speaker = self.speaker.clone();
        let text = self.text.clone();
        let audio = self.audio.clone();
        let options = match &self.options {
            Some(v) => {
                let c = v.clone();
                assert(c.deep_view() =~= v.deep_view());
                Some(c)
            },
            None => None,
        };
        let correct_option = self.correct_option;
        DialogTurn { speaker, text, audio, options, correct_option }
    }
}

impl Equals for DialogTurn {
    fn equals(&self, other: &Self) -> (r: bool) {
        self.speaker.equals(&other.speaker)
            && self.text.equals(&other.text)
            && self.audio.equals(&other.audio)
            && self.options.equals(&other.options)
            && self.correct_option.equals(&other.correct_option)
    }
}

/// A player's choice at one interactive turn of a [`Dialog`] challenge.
#[derive(Debug, PartialEq)]
pub struct DialogAnswer {
    /// Position of the turn in `Dialog::turns` that the player responded to.
    pub turn_index: usize,
    /// Index into `DialogTurn::options` that the player selected.
    pub selected_option: usize,
}

/// The value of a [`DialogAnswer`].
pub struct DialogAnswerView {
    pub turn_index: usize,
    pub selected_option: usize,
}

impl DeepView for DialogAnswer {
    type V = DialogAnswerView;

    open spec fn deep_view(&self) -> DialogAnswerView {
        DialogAnswerView {
            turn_index: self.turn_index,
            selected_option: self.selected_option,
        }
    }
}

impl View for DialogAnswer {
    type V = DialogAnswerView;

    open spec fn view(&self) -> DialogAnswerView {
        self.deep_view()
    }
}

impl Clone for DialogAnswer {
    fn clone(&self) -> (r: Self)
        ensures
            r@ == self@,
    {
        let turn_index = self.turn_index;
        let selected_option = self.selected_option;
        DialogAnswer { turn_index, selected_option }
    }
}

impl Equals for DialogAnswer {
    fn equals(&self, other: &Self) -> (r: bool) {
        self.turn_index == other.turn_index
            && self.selected_option == other.selected_option
    }
}
} // verus!

verus! {

impl Default for Speaker {
    fn default() -> (r: Speaker)
        ensures
            r.id@ == "speaker"@,
            r.name@ == "Speaker"@,
            r.icon is None,
    {
        Speaker { id: "speaker".to_string(), name: "Speaker".to_string(), icon: None }
    }
}

impl Default for DialogTurn {
    fn default() -> (r: DialogTurn)
        ensures
            r.speaker@ == "speaker"@,
            r.text@ == "Hello!"@,
            r.audio is None,
            r.options is None,
            r.correct_option is None,
    {
        DialogTurn {
            speaker: "speaker".to_string(),
            text: "Hello!".to_string(),
            audio: None,
            options: None,
            correct_option: None,
        }
    }
}

impl Default for DialogAnswer {
    fn default() -> (r: DialogAnswer)
        ensures
            r.turn_index == 0,
            r.selected_option == 0,
    {
        DialogAnswer { turn_index: 0, selected_option: 0 }
    }
}

/// A turn is interactive in Quiz mode when it has both options and a correct option.
pub open spec fn is_quiz(t: DialogTurnView) -> bool {
    t.options is Some && t.correct_option is Some
}

/// The positions of the interactive turns of `turns`, in order.
pub open spec fn quiz_positions(turns: Seq<DialogTurnView>) -> Seq<int>
    decreases turns.len(),
{
    if turns.len() == 0 {
        seq![]
    } else {
        let p = quiz_positions(turns.drop_last());
        if is_quiz(turns.last()) {
            p.push(turns.len() - 1)
        } else {
            p
        }
    }
}

impl DialogTurn {
    /// Returns `true` when this turn requires a player choice in Quiz mode:
    /// both `options` and `correct_option` are set.
    pub fn is_quiz_turn(&self) -> (r: bool)
        ensures
            r == is_quiz(self@),
    {
        self.options.is_some() && self.correct_option.is_some()
    }
}

/// A two-speaker, linear conversation challenge.
///
/// Presented either as an observer chat log or as a quiz in which the turns
/// that carry `options` and `correct_option` are interactive.
#[derive(Debug, Clone, PartialEq)]
pub struct Dialog {
    /// Unique identifier used to reference this dialog from the game map.
    pub id: String,
    /// Display name shown in the game UI.
    pub name: String,
    /// One-sentence description of the scene.
    pub description: String,
    /// Language code of the scripted lines, e.g. `"de"`.
    pub lang: String,
    /// Optional flavour text that sets the scene before the first turn plays.
    pub scenario: Option<String>,
    /// FontAwesome class or image URL displayed as the scene header.
    pub image: Option<String>,
    /// The two characters taking part in the exchange.
    pub speakers: [Speaker; 2],
    /// Ordered, flat sequence of turns that make up the dialog.
    pub turns: Vec<DialogTurn>,
}

impl Dialog {
    /// The turns as values.
    pub open spec fn turn_views(&self) -> Seq<DialogTurnView> {
        self.turns.deep_view()
    }

    /// The interactive turns with their positions in `turns`, in order.
    pub fn quiz_turns(&self) -> (r: Vec<(usize, &DialogTurn)>)
        ensures
            r@.len() == quiz_positions(self.turn_views()).len(),
            forall|k: int| 0 <= k < r@.len() ==> {
                &&& #[trigger] r@[k].0 == quiz_positions(self.turn_views())[k]
                &&& r@[k].1 == &self.turns@[r@[k].0 as int]
            },
    {
        let mut r: Vec<(usize, &DialogTurn)> = Vec::new();
        let mut i: usize = 0;
        while i < self.turns.len()
            invariant
                i <= self.turns@.len(),
                r@.len() == quiz_positions(self.turn_views().take(i as int)).len(),
                forall|k: int| 0 <= k < r@.len() ==> {
                    &&& #[trigger] r@[k].0 == quiz_positions(self.turn_views().take(i as int))[k]
                    &&& r@[k].1 == &self.turns@[r@[k].0 as int]
                },
            decreases self.turns@.len() - i,
        {
            let ghost before = self.turn_views().take(i as int);
            assert(self.turn_views().take(i + 1).drop_last() =~= before);
            if self.turns[i].is_quiz_turn() {
                r.push((i, &self.turns[i]));
            }
            i = i + 1;
        }
        assert(self.turn_views().take(i as int) =~= self.turn_views());
        r
    }

    /// The number of interactive turns: the denominator of the quiz score.
    pub fn quiz_turn_count(&self) -> (r: usize)
        ensures
            r == quiz_positions(self.turn_views()).len(),
    {
        self.quiz_turns().len()
    }

    /// The speaker with the given id, the first one if both have it.
    pub fn speaker_by_id(&self, id: &str) -> (r: Option<&Speaker>)
        ensures
            r == (if self.speakers@[0].id@ == id@ {
                Some(&self.speakers@[0])
            } else if self.speakers@[1].id@ == id@ {
                Some(&self.speakers@[1])
            } else {
                None
            }),
    {
        let wanted = id.to_string();
        if self.speakers[0].id == wanted {
            Some(&self.speakers[0])
        } else if self.speakers[1].id == wanted {
            Some(&self.speakers[1])
        } else {
            None
        }
    }
}

/// A line spoken by `speaker`, shown as it is in both modes.
fn plain_line(speaker: &str, text: &str) -> (r: DialogTurn)
    ensures
        r@.speaker == speaker@ && r@.text == text@ && r@.audio is None,
        !is_quiz(r@),
{
    DialogTurn {
        speaker: speaker.to_string(),
        text: text.to_string(),
        audio: None,
        options: None,
        correct_option: None,
    }
}

/// A line spoken by `speaker` that the player picks among three candidates
/// in Quiz mode, the candidate at `correct` being right.
fn quiz_line(speaker: &str, text: &str, a: &str, b: &str, c: &str, correct: usize) -> (r: DialogTurn)
    ensures
        r@.speaker == speaker@ && r@.text == text@ && r@.audio is None,
        r@.options == Some(seq![a@, b@, c@]),
        r@.correct_option == Some(correct),
        is_quiz(r@),
{
    let mut options: Vec<String> = Vec::new();
    options.push(a.to_string());
    options.push(b.to_string());
    options.push(c.to_string());
    let r = DialogTurn {
        speaker: speaker.to_string(),
        text: text.to_string(),
        audio: None,
        options: Some(options),
        correct_option: Some(correct),
    };
    assert(r@.options->0 =~= seq![a@, b@, c@]);
    r
}

impl Default for Dialog {
    /// The built-in greeting scene between Anna and Ben, whose turns 1, 3
    /// and 5 are interactive.
    fn default() -> (r: Dialog)
        ensures
            r.id@ == "dialog_begruessung"@,
            r.lang@ == "de"@,
            r.speakers@[0].id@ == "anna"@ && r.speakers@[0].name@ == "Anna"@,
            r.speakers@[1].id@ == "ben"@ && r.speakers@[1].name@ == "Ben"@,
            r.turns@.len() == 7,
            quiz_positions(r.turn_views()) == seq![1int, 3, 5],
    {
        let mut turns: Vec<DialogTurn> = Vec::new();
        turns.push(plain_line("anna", "Hallo! Ich bin Anna. Wie heißt du?"));
        turns.push(quiz_line(
            "ben",
            "Hallo Anna! Ich heiße Ben.",
            "Hallo Anna! Ich heiße Ben.",
            "Tschüss, Anna!",
            "Ich bin zwanzig Jahre alt.",
            0,
        ));
        turns.push(plain_line("anna", "Freut mich, Ben! Woher kommst du?"));
        turns.push(quiz_line(
            "ben",
            "Ich komme aus Österreich.",
            "Ich wohne gern hier.",
            "Ich komme aus Österreich.",
            "Ich trinke gern Kaffee.",
            1,
        ));
        turns.push(plain_line("anna", "Schön! Wie geht es dir?"));
        turns.push(quiz_line(
            "ben",
            "Mir geht es gut, danke. Und dir?",
            "Mir geht es gut, danke. Und dir?",
            "Es ist zehn Uhr.",
            "Ich habe keine Zeit.",
            0,
        ));
        turns.push(plain_line("anna", "Auch gut, danke!"));
        let r = Dialog {
            id: "dialog_begruessung".to_string(),
            name: "Begrüßung".to_string(),
            description: "Zwei Menschen lernen sich kennen.".to_string(),
            lang: "de".to_string(),
            scenario: Some("Im Sprachkurs".to_string()),
            image: Some("fa-solid fa-handshake".to_string()),
            speakers: [
                Speaker { id: "anna".to_string(), name: "Anna".to_string(), icon: None },
                Speaker { id: "ben".to_string(), name: "Ben".to_string(), icon: None },
            ],
            turns,
        };
        proof {
            let tv = r.turn_views();
            assert(!is_quiz(tv[0]) && is_quiz(tv[1]) && !is_quiz(tv[2]) && is_quiz(tv[3]));
            assert(!is_quiz(tv[4]) && is_quiz(tv[5]) && !is_quiz(tv[6]));
            assert(quiz_positions(tv.take(0)) =~= seq![]);
            assert(tv.take(1).drop_last() =~= tv.take(0));
            assert(quiz_positions(tv.take(1)) =~= seq![]);
            assert(tv.take(2).drop_last() =~= tv.take(1));
            assert(quiz_positions(tv.take(2)) =~= seq![1int]);
            assert(tv.take(3).drop_last() =~= tv.take(2));
            assert(quiz_positions(tv.take(3)) =~= seq![1int]);
            assert(tv.take(4).drop_last() =~= tv.take(3));
            assert(quiz_positions(tv.take(4)) =~= seq![1int, 3]);
            assert(tv.take(5).drop_last() =~= tv.take(4));
            assert(quiz_positions(tv.take(5)) =~= seq![1int, 3]);
            assert(tv.take(6).drop_last() =~= tv.take(5));
            assert(quiz_positions(tv.take(6)) =~= seq![1int, 3, 5]);
            assert(tv.take(7).drop_last() =~= tv.take(6));
            assert(tv.take(7) =~= tv);
        }
        r
    }
}

} // verus!
