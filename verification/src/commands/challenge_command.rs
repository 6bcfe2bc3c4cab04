//! Challenge-level commands: starting a challenge, moving between its
//! tasks, answering and finishing it.

use super::command::CommandTrait;
use super::command_type::CommandType;
use super::error::CommandError;
use super::game_command::{game_error, started};
use crate::challenges::challenge::{last_answer_correct, keeps_answers, Challenge, ChallengeView};
use crate::challenges::challenge_input::{ChallengeInput, ChallengeInputView};
use crate::challenges::challenge_result::{spec_add_input, ChallengeResult, ChallengeResultView};
use crate::challenges::challenge_type::{ChallengeType, ChallengeTypeView};
use crate::challenges::error::ChallengeError;
use crate::challenges::multiple_choice::MultipleChoiceOption;
use crate::challenges::solvable::Solvable;
use crate::challenges::timed::Timed;
use crate::game::{GameError, GamePath, GameState, GameStateView};
use crate::task_pattern::{spec_task_count, task_count_fits};
use vstd::prelude::*;

verus! {

/// Commands on the challenge being played.
#[derive(Debug, PartialEq)]
pub enum ChallengeCommand {
    /// Command to start the given challenge.
    Start(Challenge),
    /// Command to move to the next task within a challenge.
    NextTask,
    /// Command to move to the previous task within a challenge.
    PreviousTask,
    /// Command to solve a multiple choice option.
    SolveOption(usize),
    /// Command to finish the challenge, with a result of its own if given.
    Finish(Option<ChallengeResult>),
}

/// The value of a [`ChallengeCommand`].
pub enum ChallengeCommandView {
    Start(ChallengeView),
    NextTask,
    PreviousTask,
    SolveOption(usize),
    Finish(Option<ChallengeResultView>),
}

impl View for ChallengeCommand {
    type V = ChallengeCommandView;

    open spec fn view(&self) -> ChallengeCommandView {
        match self {
            ChallengeCommand::Start(c) => ChallengeCommandView::Start(c@),
            ChallengeCommand::NextTask => ChallengeCommandView::NextTask,
            ChallengeCommand::PreviousTask => ChallengeCommandView::PreviousTask,
            ChallengeCommand::SolveOption(i) => ChallengeCommandView::SolveOption(*i),
            ChallengeCommand::Finish(r) => ChallengeCommandView::Finish(
                match r {
                    Some(x) => Some(x@),
                    None => None,
                },
            ),
        }
    }
}

impl Clone for ChallengeCommand {
    fn clone(&self) -> (r: Self)
        ensures
            r@ == self@,
    {
        match self {
            ChallengeCommand::Start(c) => ChallengeCommand::Start(c.clone()),
            ChallengeCommand::NextTask => ChallengeCommand::NextTask,
            ChallengeCommand::PreviousTask => ChallengeCommand::PreviousTask,
            ChallengeCommand::SolveOption(i) => ChallengeCommand::SolveOption(*i),
            ChallengeCommand::Finish(r) => ChallengeCommand::Finish(
                match r {
                    Some(x) => Some(x.clone()),
                    None => None,
                },
            ),
        }
    }
}

/// Moving to the next task of `s` does not panic: where the current path
/// exists, its current challenge exists and has at least one task, counted
/// without overflow.
pub open spec fn next_task_safe(s: GameStateView) -> bool {
    s.current_game_path < s.game.game_paths.len() ==> {
        let path = s.game.game_paths[s.current_game_path as int];
        &&& s.current_challenge_index < path.challenges.len()
        &&& task_count_fits(path.challenges[s.current_challenge_index as int].tasks)
        &&& spec_task_count(path.challenges[s.current_challenge_index as int].tasks) >= 1
    }
}

/// What moving to the next task does: one task on, unless the current task
/// is the last one the configuration of the current challenge has.
pub open spec fn spec_next_task(before: GameStateView, after: GameStateView, r: Result<(), CommandError>) -> bool {
    let paths = before.game.game_paths;
    if before.current_game_path >= paths.len() {
        after == before && game_error(r, GameError::GamePathNotFound)
    } else {
        let path = paths[before.current_game_path as int];
        let max = spec_task_count(path.challenges[before.current_challenge_index as int].tasks);
        if before.current_task_index >= max - 1 {
            after == before && r == Err::<(), CommandError>(CommandError::ChallengeError(ChallengeError::NoMoreTasks))
        } else {
            after == GameStateView { current_task_index: (before.current_task_index + 1) as usize, ..before }
                && r is Ok
        }
    }
}

/// What moving to the previous task does: one task back, unless at the first.
pub open spec fn spec_previous_task(before: GameStateView, after: GameStateView, r: Result<(), CommandError>) -> bool {
    if before.current_task_index == 0 {
        after == before && r == Err::<(), CommandError>(CommandError::ChallengeError(ChallengeError::NoPreviousTasks))
    } else {
        after == GameStateView { current_task_index: (before.current_task_index - 1) as usize, ..before }
            && r is Ok
    }
}

/// `after` is `before` with its challenge solved with `input`: its end time
/// recorded, `input` added to its answers when of the right kind.
pub open spec fn solved_with(before: GameStateView, after: GameStateView, input: ChallengeInputView) -> bool {
    &&& after.game == before.game
    &&& after.current_game_path == before.current_game_path
    &&& after.current_challenge_index == before.current_challenge_index
    &&& after.current_task_index == before.current_task_index
    &&& after.challenge.challenge_type == before.challenge.challenge_type
    &&& after.challenge.challenge_config == before.challenge.challenge_config
    &&& after.challenge.start_time == before.challenge.start_time
    &&& after.challenge.end_time is Some
    &&& after.challenge.challenge_result == match spec_add_input(before.challenge.challenge_result, input) {
        Some(n) => n,
        None => before.challenge.challenge_result,
    }
}

/// What solving with option `index` does: the challenge, which must be a
/// multiple-choice one with that option, is solved with the option, and
/// the state then moves to the next task where there is one.
pub open spec fn spec_solve_option(before: GameStateView, after: GameStateView, index: usize, r: Result<(), CommandError>) -> bool {
    match before.challenge.challenge_type {
        ChallengeTypeView::MultipleChoice(d) => if index < d.options.len() {
            &&& r is Ok
            &&& exists|mid: GameStateView, r2: Result<(), CommandError>|
                #[trigger] solved_with(before, mid, ChallengeInputView::MultipleChoice(d.options[index as int]))
                && #[trigger] spec_next_task(mid, after, r2)
        } else {
            after == before && r == Err::<(), CommandError>(CommandError::ChallengeError(ChallengeError::InvalidOptionId(index)))
        },
        _ => after == before && r == Err::<(), CommandError>(CommandError::ChallengeError(ChallengeError::InvalidChallengeType)),
    }
}

/// What finishing does: the end time recorded and, when a result is given,
/// that result taken as the challenge's.
pub open spec fn spec_finish(before: GameStateView, after: GameStateView, result: Option<ChallengeResultView>, r: Result<(), CommandError>) -> bool {
    &&& r is Ok
    &&& after.game == before.game
    &&& after.current_game_path == before.current_game_path
    &&& after.current_challenge_index == before.current_challenge_index
    &&& after.current_task_index == before.current_task_index
    &&& after.challenge.challenge_type == before.challenge.challenge_type
    &&& after.challenge.challenge_config == before.challenge.challenge_config
    &&& after.challenge.start_time == before.challenge.start_time
    &&& after.challenge.end_time is Some
    &&& after.challenge.challenge_result == match result {
        Some(x) => x,
        None => before.challenge.challenge_result,
    }
}

/// What starting `c` does: `c` started becomes the challenge played, at its first task.
pub open spec fn spec_start(before: GameStateView, after: GameStateView, c: ChallengeView, r: Result<(), CommandError>) -> bool {
    &&& r is Ok
    &&& after.game == before.game
    &&& after.current_game_path == before.current_game_path
    &&& after.current_challenge_index == before.current_challenge_index
    &&& after.current_task_index == 0
    &&& started(c, after.challenge)
}

impl CommandTrait for ChallengeCommand {
    open spec fn can_execute(&self, state: GameStateView) -> bool {
        match self {
            ChallengeCommand::NextTask => next_task_safe(state),
            ChallengeCommand::SolveOption(i) => match state.challenge.challenge_type {
                ChallengeTypeView::MultipleChoice(d) => *i < d.options.len()
                    ==> keeps_answers(state.challenge.challenge_result) && next_task_safe(state),
                _ => true,
            },
            _ => true,
        }
    }

    open spec fn executes(&self, before: GameStateView, after: GameStateView, r: Result<(), CommandError>) -> bool {
        match self {
            ChallengeCommand::Start(c) => spec_start(before, after, c@, r),
            ChallengeCommand::NextTask => spec_next_task(before, after, r),
            ChallengeCommand::PreviousTask => spec_previous_task(before, after, r),
            ChallengeCommand::SolveOption(i) => spec_solve_option(before, after, *i, r),
            ChallengeCommand::Finish(res) => spec_finish(
                before,
                after,
                match res {
                    Some(x) => Some(x@),
                    None => None,
                },
                r,
            ),
        }
    }

    open spec fn kind(&self) -> CommandType {
        CommandType::Challenge
    }

    /// Executes the challenge command on the given game state.
    fn execute(&self, state: &mut GameState) -> (r: Result<(), CommandError>) {
        match self {
            ChallengeCommand::Start(challenge) => ChallengeCommand::start_challenge(state, challenge),
            ChallengeCommand::NextTask => ChallengeCommand::next_task(state),
            ChallengeCommand::PreviousTask => ChallengeCommand::previous_task(state),
            ChallengeCommand::SolveOption(option_index) => ChallengeCommand::solve_option(state, *option_index),
            ChallengeCommand::Finish(result) => ChallengeCommand::finish_challenge(state, result),
        }
    }

    fn get_type(&self) -> (r: CommandType) {
        CommandType::Challenge
    }
}

impl ChallengeCommand {
    /// Starts the given challenge at its first task.
    pub fn start_challenge(state: &mut GameState, challenge: &Challenge) -> (r: Result<(), CommandError>)
        ensures
            spec_start(old(state)@, final(state)@, challenge@, r),
    {
        let mut challenge = challenge.clone();
        challenge.start();
        state.challenge = challenge;
        state.current_task_index = 0;
        Ok(())
    }

    /// Moves the game state to the next task within the current challenge.
    pub fn next_task(state: &mut GameState) -> (r: Result<(), CommandError>)
        requires
            next_task_safe(old(state)@),
        ensures
            spec_next_task(old(state)@, final(state)@, r),
    {
        if state.current_game_path >= state.game.game_paths.len() {
            return Err(CommandError::GameError(GameError::GamePathNotFound));
        }
        let current_game_path: &GamePath = &state.game.game_paths[state.current_game_path];
        let challenge_config = &current_game_path.challenges[state.current_challenge_index];
        let max_questions = challenge_config.tasks.len();
        if state.current_task_index >= max_questions - 1 {
            return Err(CommandError::ChallengeError(ChallengeError::NoMoreTasks));
        }
        state.current_task_index = state.current_task_index + 1;
        Ok(())
    }

    /// Moves the game state to the previous task within the current challenge.
    pub fn previous_task(state: &mut GameState) -> (r: Result<(), CommandError>)
        ensures
            spec_previous_task(old(state)@, final(state)@, r),
    {
        if state.current_task_index == 0 {
            return Err(CommandError::ChallengeError(ChallengeError::NoPreviousTasks));
        }
        state.current_task_index = state.current_task_index - 1;
        Ok(())
    }

    /// Solves the current task with the selected option and moves to the next task.
    pub fn solve_option(state: &mut GameState, option_index: usize) -> (r: Result<(), CommandError>)
        requires
            ChallengeCommand::SolveOption(option_index).can_execute(old(state)@),
        ensures
            spec_solve_option(old(state)@, final(state)@, option_index, r),
    {
        let ghost before = state@;
        let challenge_input = match &state.challenge.challenge_type {
            ChallengeType::MultipleChoice(dataset) => {
                if option_index >= dataset.options.len() {
                    return Err(CommandError::ChallengeError(ChallengeError::InvalidOptionId(option_index)));
                }
                let option = &dataset.options[option_index];
                ChallengeInput::MultipleChoice(MultipleChoiceOption { id: option.id, name: option.name.clone() })
            },
            _ => {
                return Err(CommandError::ChallengeError(ChallengeError::InvalidChallengeType));
            },
        };
        match state.challenge.solve(challenge_input) {
            Ok(_) => {},
            Err(e) => {
                return Err(CommandError::ChallengeError(e));
            },
        }
        let ghost mid = state@;
        assert(solved_with(before, mid, ChallengeInputView::MultipleChoice(before.challenge.challenge_type->MultipleChoice_0.options[option_index as int])));
        let next = ChallengeCommand::next_task(state);
        assert(spec_next_task(mid, state@, next));
        Ok(())
    }

    /// Finishes the current challenge, with the given result if there is one.
    pub fn finish_challenge(state: &mut GameState, custom_result: &Option<ChallengeResult>) -> (r: Result<(), CommandError>)
        ensures
            spec_finish(
                old(state)@,
                final(state)@,
                match custom_result {
                    Some(x) => Some(x@),
                    None => None,
                },
                r,
            ),
    {
        state.challenge.update_end_time();
        match custom_result {
            Some(result) => {
                state.challenge.challenge_result = result.clone();
            },
            None => {},
        }
        Ok(())
    }
}

/// Moving to the next task and then back gives the state one started from.
pub proof fn lemma_next_then_previous_task(
    s0: GameStateView,
    s1: GameStateView,
    s2: GameStateView,
    r2: Result<(), CommandError>,
)
    requires
        spec_next_task(s0, s1, Ok(())),
        spec_previous_task(s1, s2, r2),
    ensures
        s2 == s0,
        r2 is Ok,
{
}

/// Whether moving to the next task of `state` does not panic.
pub fn next_task_can_run(state: &GameState) -> (r: bool)
    ensures
        r == next_task_safe(state@),
{
    if state.current_game_path >= state.game.game_paths.len() {
        return true;
    }
    let path = &state.game.game_paths[state.current_game_path];
    if state.current_challenge_index >= path.challenges.len() {
        return false;
    }
    let tasks = &path.challenges[state.current_challenge_index].tasks;
    tasks.count_fits() && tasks.len() >= 1
}

impl ChallengeCommand {
    /// Whether executing the command on `state` does not panic.
    pub fn can_run(&self, state: &GameState) -> (r: bool)
        ensures
            r == self.can_execute(state@),
    {
        match self {
            ChallengeCommand::NextTask => next_task_can_run(state),
            ChallengeCommand::SolveOption(i) => match &state.challenge.challenge_type {
                ChallengeType::MultipleChoice(d) => {
                    if *i < d.options.len() {
                        let keeps = match &state.challenge.challenge_result {
                            ChallengeResult::Informative => false,
                            ChallengeResult::Custom(_) => false,
                            ChallengeResult::Vocabulary => false,
                            _ => true,
                        };
                        keeps && next_task_can_run(state)
                    } else {
                        true
                    }
                },
                _ => true,
            },
            _ => true,
        }
    }
}


/// Every task of the challenge being played can be reached, the last one
/// included: while a task follows the current one (the next index is below
/// the number of tasks its configuration selects), moving on succeeds and
/// goes to exactly that task, changing nothing else; from the last task,
/// moving on is refused and nothing changes.
pub proof fn lemma_next_task_reaches_every_task(before: GameStateView, after: GameStateView, r: Result<(), CommandError>)
    requires
        spec_next_task(before, after, r),
        before.current_game_path < before.game.game_paths.len(),
        before.current_challenge_index < before.game.game_paths[before.current_game_path as int].challenges.len(),
    ensures
        ({
            let tasks = before.game.game_paths[before.current_game_path as int]
                .challenges[before.current_challenge_index as int].tasks;
            &&& before.current_task_index + 1 < spec_task_count(tasks) ==> {
                &&& r is Ok
                &&& after.current_task_index == before.current_task_index + 1
                &&& after.game == before.game
                &&& after.challenge == before.challenge
                &&& after.current_game_path == before.current_game_path
                &&& after.current_challenge_index == before.current_challenge_index
            }
            &&& before.current_task_index + 1 >= spec_task_count(tasks) ==> r is Err && after == before
        }),
{
}

/// Moving back goes to exactly the task before, unless at the first task,
/// where it is refused and nothing changes.
pub proof fn lemma_previous_task_steps_back(before: GameStateView, after: GameStateView, r: Result<(), CommandError>)
    requires
        spec_previous_task(before, after, r),
    ensures
        before.current_task_index > 0 ==> r is Ok && after.current_task_index + 1 == before.current_task_index
            && after.game == before.game && after.challenge == before.challenge,
        before.current_task_index == 0 ==> r is Err && after == before,
{
}

} // verus!
