//! The game: its paths of configured challenges, the challenge types it
//! knows, what was played and the experience earned, and the state of a
//! game being played.

use crate::challenges::challenge::{default_challenge, Challenge, ChallengeView};
use crate::challenges::challenge_config::{ChallengeConfig, ChallengeConfigView};
use crate::challenges::challenge_factory::{default_factory, first_with_id, made_from, lacks_id, position_of, ChallengeFactory};
use crate::challenges::challenge_history::ChallengeHistory;
use crate::challenges::challenge_type::{tasks_selectable, type_id, ChallengeTypeView};
use crate::challenges::error::ChallengeError;
use crate::task_pattern::{TaskPattern, TaskPatternModel};
use crate::text::same_text;
use vstd::prelude::*;

verus! {

/// What can go wrong with the game.
#[derive(Debug, PartialEq, Clone)]
pub enum GameError {
    /// The current game path does not exist
    GamePathNotFound,
    /// No challenge is configured with the given id
    ChallengeNotFound(String),
    /// The challenge could not be made
    ChallengeError(ChallengeError),
    /// The game cannot do what was asked in its state
    InvalidGameState(String),
}

/// A path through the game: challenges configured in the order they are played.
#[derive(Debug, PartialEq)]
pub struct GamePath {
    pub id: String,
    pub name: String,
    pub challenges: Vec<ChallengeConfig>,
}

/// The value of a [`GamePath`].
pub struct GamePathView {
    pub id: Seq<char>,
    pub name: Seq<char>,
    pub challenges: Seq<ChallengeConfigView>,
}

impl View for GamePath {
    type V = GamePathView;

    open spec fn view(&self) -> GamePathView {
        GamePathView { id: self.id@, name: self.name@, challenges: self.challenges.deep_view() }
    }
}

impl DeepView for GamePath {
    type V = GamePathView;

    open spec fn deep_view(&self) -> GamePathView {
        self@
    }
}

impl Clone for GamePath {
    fn clone(&self) -> (r: Self)
        ensures
            r@ == self@,
    {
        let challenges = self.challenges.clone();
        assert(challenges.deep_view() =~= self.challenges.deep_view());
        GamePath { id: self.id.clone(), name: self.name.clone(), challenges }
    }
}

/// A configuration of the default path: challenge `challenge`, its first
/// `tasks` tasks, described by its name, at `(x, y)` and open from the start.
pub open spec fn path_config(id: Seq<char>, name: Seq<char>, challenge: Seq<char>, tasks: usize, x: i32, y: i32) -> ChallengeConfigView {
    ChallengeConfigView {
        id,
        name,
        description: name,
        challenge,
        variant: None,
        tasks: TaskPatternModel::Exact(tasks),
        unlock_points: 0,
        position: Some((x, y)),
    }
}

/// The built-in path of eight challenges.
pub open spec fn default_path() -> GamePathView {
    GamePathView {
        id: "konnektoren"@,
        name: "Konnektoren"@,
        challenges: seq![
            path_config("konnektoren-1"@, "Konnektoren #1"@, "konnektoren"@, 5, 0, 0),
            path_config("articles-1"@, "Artikel #1"@, "articles-1"@, 3, 1, 0),
            path_config("past-tense-1"@, "Perfekt #1"@, "past-tense"@, 2, 2, 0),
            path_config("sentence-structure-1"@, "Satzbau #1"@, "sentence-structure"@, 2, 3, 0),
            path_config("konnektoren-2"@, "Konnektoren #2"@, "konnektoren"@, 8, 3, 1),
            path_config("articles-2"@, "Artikel #2"@, "articles-1"@, 4, 2, 1),
            path_config("past-tense-2"@, "Perfekt #2"@, "past-tense"@, 2, 1, 1),
            path_config("konnektoren-3"@, "Konnektoren #3"@, "konnektoren"@, 10, 0, 1),
        ],
    }
}

/// A configuration of the default path.
fn config(id: &str, name: &str, challenge: &str, tasks: usize, x: i32, y: i32) -> (r: ChallengeConfig)
    ensures
        r@ == path_config(id@, name@, challenge@, tasks, x, y),
{
    ChallengeConfig {
        id: id.to_string(),
        name: name.to_string(),
        description: name.to_string(),
        challenge: challenge.to_string(),
        variant: None,
        tasks: TaskPattern::Exact(tasks),
        unlock_points: 0,
        position: Some((x, y)),
    }
}

/// The configurations of `p` all select their first tasks.
pub open spec fn exact_tasks(p: GamePathView) -> bool {
    forall|c: int| 0 <= c < p.challenges.len() ==> (#[trigger] p.challenges[c]).tasks is Exact
}

impl Default for GamePath {
    /// The built-in path of eight challenges, each playing the first tasks
    /// of a built-in challenge type.
    fn default() -> (r: GamePath)
        ensures
            r@ == default_path(),
            exact_tasks(r@),
    {
        let mut challenges: Vec<ChallengeConfig> = Vec::new();
        challenges.push(config("konnektoren-1", "Konnektoren #1", "konnektoren", 5, 0, 0));
        challenges.push(config("articles-1", "Artikel #1", "articles-1", 3, 1, 0));
        challenges.push(config("past-tense-1", "Perfekt #1", "past-tense", 2, 2, 0));
        challenges.push(config("sentence-structure-1", "Satzbau #1", "sentence-structure", 2, 3, 0));
        challenges.push(config("konnektoren-2", "Konnektoren #2", "konnektoren", 8, 3, 1));
        challenges.push(config("articles-2", "Artikel #2", "articles-1", 4, 2, 1));
        challenges.push(config("past-tense-2", "Perfekt #2", "past-tense", 2, 1, 1));
        challenges.push(config("konnektoren-3", "Konnektoren #3", "konnektoren", 10, 0, 1));
        let r = GamePath { id: "konnektoren".to_string(), name: "Konnektoren".to_string(), challenges };
        assert(r@.challenges =~= default_path().challenges);
        r
    }
}

impl GamePath {
    /// The ids of its configured challenges, in order.
    pub fn challenge_ids(&self) -> (r: Vec<String>)
        ensures
            r@.len() == self@.challenges.len(),
            forall|i: int| 0 <= i < r@.len() ==> #[trigger] r@[i]@ == self@.challenges[i].id,
    {
        let mut r: Vec<String> = Vec::new();
        let mut i: usize = 0;
        while i < self.challenges.len()
            invariant
                i <= self@.challenges.len(),
                r@.len() == i,
                forall|k: int| 0 <= k < i ==> #[trigger] r@[k]@ == self@.challenges[k].id,
            decreases self@.challenges.len() - i,
        {
            r.push(self.challenges[i].id.clone());
            i = i + 1;
        }
        r
    }
}

/// The game.
#[derive(Debug, PartialEq)]
pub struct Game {
    pub game_paths: Vec<GamePath>,
    pub challenge_factory: ChallengeFactory,
    pub challenge_history: ChallengeHistory,
    pub xp: u32,
}

/// The value of a [`Game`].
pub struct GameView {
    pub game_paths: Seq<GamePathView>,
    pub challenge_factory: Seq<ChallengeTypeView>,
    pub challenge_history: Seq<ChallengeView>,
    pub xp: u32,
}

impl View for Game {
    type V = GameView;

    open spec fn view(&self) -> GameView {
        GameView {
            game_paths: self.game_paths.deep_view(),
            challenge_factory: self.challenge_factory@,
            challenge_history: self.challenge_history@,
            xp: self.xp,
        }
    }
}

impl Clone for Game {
    fn clone(&self) -> (r: Self)
        ensures
            r@ == self@,
    {
        let game_paths = self.game_paths.clone();
        assert(game_paths.deep_view() =~= self.game_paths.deep_view());
        Game {
            game_paths,
            challenge_factory: self.challenge_factory.clone(),
            challenge_history: self.challenge_history.clone(),
            xp: self.xp,
        }
    }
}

/// `(p, c)` is the first place, path by path and in each path in order,
/// of a challenge configured with id `id`.
pub open spec fn first_config(paths: Seq<GamePathView>, id: Seq<char>, p: int, c: int) -> bool {
    &&& 0 <= p < paths.len()
    &&& 0 <= c < paths[p].challenges.len()
    &&& paths[p].challenges[c].id == id
    &&& forall|q: int, d: int| 0 <= q < paths.len() && 0 <= d < paths[q].challenges.len()
        && (q < p || (q == p && d < c)) ==> (#[trigger] paths[q].challenges[d]).id != id
}

/// No challenge of any path is configured with id `id`.
pub open spec fn no_config(paths: Seq<GamePathView>, id: Seq<char>) -> bool {
    forall|q: int, d: int| 0 <= q < paths.len() && 0 <= d < paths[q].challenges.len()
        ==> (#[trigger] paths[q].challenges[d]).id != id
}

/// Every configured challenge can be made: the tasks it selects can be
/// selected from the type it names.
pub open spec fn creatable(g: GameView) -> bool {
    forall|q: int, d: int, i: int|
        0 <= q < g.game_paths.len() && 0 <= d < g.game_paths[q].challenges.len()
        && #[trigger] first_with_id(g.challenge_factory, g.game_paths[q].challenges[d].challenge, i)
        ==> tasks_selectable(g.challenge_factory[i], (#[trigger] g.game_paths[q].challenges[d]).tasks)
}

/// The challenge configured with id `id` can be made: the tasks its first
/// configuration selects can be selected from the first type with the id
/// that configuration names.
pub open spec fn creatable_id(g: GameView, id: Seq<char>) -> bool {
    forall|p: int, k: int, i: int|
        #![trigger first_config(g.game_paths, id, p, k), first_with_id(g.challenge_factory, g.game_paths[p].challenges[k].challenge, i)]
        first_config(g.game_paths, id, p, k)
        && first_with_id(g.challenge_factory, g.game_paths[p].challenges[k].challenge, i)
        ==> tasks_selectable(g.challenge_factory[i], g.game_paths[p].challenges[k].tasks)
}

/// There is one first place of a configuration with a given id.
proof fn lemma_first_config_unique(paths: Seq<GamePathView>, id: Seq<char>, p: int, k: int, q: int, d: int)
    requires
        first_config(paths, id, p, k),
        first_config(paths, id, q, d),
    ensures
        p == q && k == d,
{
    if q < p || (q == p && d < k) {
        assert(paths[q].challenges[d].id == id);
    } else if p < q || (p == q && k < d) {
        assert(paths[p].challenges[k].id == id);
    }
}

/// What creating the challenge configured with id `id` gives: the challenge
/// made from the first configuration with that id; `ChallengeNotFound`
/// with the id when there is none; the factory's error when no type has the
/// id the configuration names.
pub open spec fn created(g: GameView, id: Seq<char>, r: Result<Challenge, GameError>) -> bool {
    match r {
        Ok(c) => exists|p: int, k: int, i: int| #![trigger first_config(g.game_paths, id, p, k), g.challenge_factory[i]]
            first_config(g.game_paths, id, p, k)
            && first_with_id(g.challenge_factory, g.game_paths[p].challenges[k].challenge, i)
            && made_from(g.challenge_factory[i], g.game_paths[p].challenges[k], c@),
        Err(GameError::ChallengeNotFound(m)) => m@ == id && no_config(g.game_paths, id),
        Err(GameError::ChallengeError(e)) => e == ChallengeError::ChallengeTypeNotFound
            && exists|p: int, k: int| #[trigger] first_config(g.game_paths, id, p, k)
            && lacks_id(g.challenge_factory, g.game_paths[p].challenges[k].challenge),
        Err(_) => false,
    }
}

impl Default for Game {
    /// The built-in path, the built-in challenge types, nothing played and no experience.
    fn default() -> (r: Game)
        ensures
            r@.game_paths == seq![default_path()],
            default_factory(r@.challenge_factory),
            r@.challenge_history.len() == 0,
            r@.xp == 0,
            creatable(r@),
    {
        let mut game_paths: Vec<GamePath> = Vec::new();
        game_paths.push(GamePath::default());
        let r = Game {
            game_paths,
            challenge_factory: ChallengeFactory::default(),
            challenge_history: ChallengeHistory::new(),
            xp: 0,
        };
        assert(exact_tasks(r@.game_paths[0]));
        assert(r@.game_paths =~= seq![default_path()]);
        r
    }
}

impl Game {
    /// Whether the challenge configured with id `id` can be made without
    /// panicking.
    pub fn can_create(&self, id: &str) -> (r: bool)
        ensures
            r == creatable_id(self@, id@),
    {
        let ghost g = self@;
        match self.find_config(id) {
            Some((p, c)) => {
                let config = &self.game_paths[p].challenges[c];
                assert(config@ == g.game_paths[p as int].challenges[c as int]);
                match position_of(&self.challenge_factory.challenge_types, config.challenge.as_str()) {
                    Some(i) => {
                        assert(self.challenge_factory.challenge_types@[i as int]@ == g.challenge_factory[i as int]);
                        let ok = self.challenge_factory.challenge_types[i].can_select(&config.tasks);
                        assert forall|q: int, d: int, j: int|
                            first_config(g.game_paths, id@, q, d)
                            && first_with_id(g.challenge_factory, g.game_paths[q].challenges[d].challenge, j)
                            implies (j == i as int && q == p as int && d == c as int) by {
                            lemma_first_config_unique(g.game_paths, id@, p as int, c as int, q, d);
                            if j < i as int {
                                assert(type_id(g.challenge_factory[j]) != config@.challenge);
                            } else if j > i as int {
                                assert(type_id(g.challenge_factory[i as int]) != config@.challenge);
                            }
                        }
                        if !ok {
                            assert(first_config(g.game_paths, id@, p as int, c as int));
                            assert(first_with_id(g.challenge_factory, g.game_paths[p as int].challenges[c as int].challenge, i as int));
                        }
                        ok
                    },
                    None => {
                        assert forall|q: int, d: int, j: int|
                            first_config(g.game_paths, id@, q, d)
                            && first_with_id(g.challenge_factory, g.game_paths[q].challenges[d].challenge, j)
                            implies false by {
                            lemma_first_config_unique(g.game_paths, id@, p as int, c as int, q, d);
                            assert(type_id(g.challenge_factory[j]) != config@.challenge);
                        }
                        true
                    },
                }
            },
            None => {
                assert forall|q: int, d: int| first_config(g.game_paths, id@, q, d) implies false by {
                    assert(g.game_paths[q].challenges[d].id == id@);
                }
                true
            },
        }
    }

    /// The place of the first challenge configured with id `id`.
    fn find_config(&self, id: &str) -> (r: Option<(usize, usize)>)
        ensures
            match r {
                Some((p, c)) => first_config(self@.game_paths, id@, p as int, c as int),
                None => no_config(self@.game_paths, id@),
            },
    {
        let ghost paths = self@.game_paths;
        let mut p: usize = 0;
        while p < self.game_paths.len()
            invariant
                paths == self@.game_paths,
                p <= paths.len(),
                forall|q: int, d: int| 0 <= q < p && 0 <= d < paths[q].challenges.len()
                    ==> (#[trigger] paths[q].challenges[d]).id != id@,
            decreases paths.len() - p,
        {
            let path = &self.game_paths[p];
            assert(path@ == paths[p as int]);
            let mut c: usize = 0;
            while c < path.challenges.len()
                invariant
                    paths == self@.game_paths,
                    p < paths.len(),
                    path@ == paths[p as int],
                    c <= paths[p as int].challenges.len(),
                    forall|q: int, d: int| 0 <= q < p && 0 <= d < paths[q].challenges.len()
                        ==> (#[trigger] paths[q].challenges[d]).id != id@,
                    forall|d: int| 0 <= d < c ==> (#[trigger] paths[p as int].challenges[d]).id != id@,
                decreases paths[p as int].challenges.len() - c,
            {
                if same_text(path.challenges[c].id.as_str(), id) {
                    assert(paths[p as int].challenges[c as int].id == id@);
                    return Some((p, c));
                }
                c = c + 1;
            }
            p = p + 1;
        }
        None
    }

    /// The challenge configured with id `challenge_config_id`, made by the
    /// game's factory from the first configuration with that id.
    pub fn create_challenge(&self, challenge_config_id: &str) -> (r: Result<Challenge, GameError>)
        requires
            creatable_id(self@, challenge_config_id@),
        ensures
            created(self@, challenge_config_id@, r),
    {
        match self.find_config(challenge_config_id) {
            Some((p, c)) => {
                let config = &self.game_paths[p].challenges[c];
                let ghost g = self@;
                assert(config@ == g.game_paths[p as int].challenges[c as int]);
                assert(first_config(g.game_paths, challenge_config_id@, p as int, c as int));
                assert forall|i: int| first_with_id(self.challenge_factory@, config@.challenge, i)
                    implies tasks_selectable(#[trigger] self.challenge_factory@[i], config@.tasks) by {
                    assert(first_with_id(g.challenge_factory, g.game_paths[p as int].challenges[c as int].challenge, i));
                }
                match self.challenge_factory.create_challenge(config) {
                    Ok(challenge) => {
                        let ghost i = choose|i: int| first_with_id(g.challenge_factory, config@.challenge, i)
                            && made_from(g.challenge_factory[i], config@, challenge@);
                        assert(first_with_id(g.challenge_factory, g.game_paths[p as int].challenges[c as int].challenge, i));
                        Ok(challenge)
                    },
                    Err(e) => Err(GameError::ChallengeError(e)),
                }
            },
            None => Err(GameError::ChallengeNotFound(challenge_config_id.to_string())),
        }
    }
}

/// The state of a game being played.
#[derive(Debug, PartialEq)]
pub struct GameState {
    pub game: Game,
    pub challenge: Challenge,
    pub current_game_path: usize,
    pub current_challenge_index: usize,
    pub current_task_index: usize,
}

/// The value of a [`GameState`].
pub struct GameStateView {
    pub game: GameView,
    pub challenge: ChallengeView,
    pub current_game_path: usize,
    pub current_challenge_index: usize,
    pub current_task_index: usize,
}

impl View for GameState {
    type V = GameStateView;

    open spec fn view(&self) -> GameStateView {
        GameStateView {
            game: self.game@,
            challenge: self.challenge@,
            current_game_path: self.current_game_path,
            current_challenge_index: self.current_challenge_index,
            current_task_index: self.current_task_index,
        }
    }
}

impl Clone for GameState {
    fn clone(&self) -> (r: Self)
        ensures
            r@ == self@,
    {
        GameState {
            game: self.game.clone(),
            challenge: self.challenge.clone(),
            current_game_path: self.current_game_path,
            current_challenge_index: self.current_challenge_index,
            current_task_index: self.current_task_index,
        }
    }
}

impl GameState {
    /// The start of `game`: the default challenge, at the first task of the
    /// first challenge of the first path.
    pub fn new(game: Game) -> (r: GameState)
        ensures
            r@.game == game@,
            default_challenge(r@.challenge),
            r@.current_game_path == 0,
            r@.current_challenge_index == 0,
            r@.current_task_index == 0,
    {
        GameState {
            game,
            challenge: Challenge::default(),
            current_game_path: 0,
            current_challenge_index: 0,
            current_task_index: 0,
        }
    }
}

impl Default for GameState {
    /// The start of the default game.
    fn default() -> (r: GameState)
        ensures
            r@.game.game_paths == seq![default_path()],
            default_factory(r@.game.challenge_factory),
            r@.game.challenge_history.len() == 0,
            r@.game.xp == 0,
            creatable(r@.game),
            default_challenge(r@.challenge),
            r@.current_game_path == 0,
            r@.current_challenge_index == 0,
            r@.current_task_index == 0,
    {
        GameState::new(Game::default())
    }
}

} // verus!
