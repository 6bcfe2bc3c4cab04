//! Statistics over the challenges a player has played: over the whole
//! history, or over the plays of one configured challenge.

use super::challenge::ChallengeView;
use super::challenge_config::ChallengeConfig;
use super::challenge_history::ChallengeHistory;
use super::challenge_result::result_len;
use super::challenge_type::{count_true, performance_defined, spec_performance};
use super::performance::{spec_stars, stars_for_performance, Performance};
use crate::task_pattern::{spec_task_count, task_count_fits};
use vstd::prelude::*;

verus! {

/// Statistics over the plays of one configured challenge.
pub trait ChallengeStats {
    /// `completed_challenges` can be computed without panicking.
    spec fn completed_computable(&self) -> bool;

    /// `performance` and `stars` can be computed without panicking.
    spec fn performance_computable(&self) -> bool;

    /// The number of challenges counted.
    spec fn challenge_count(&self) -> int;

    /// The number of those completed.
    spec fn completed_count(&self) -> int;

    /// The performance, in percent.
    spec fn performance_value(&self) -> int;

    /// Whether they count as solved.
    spec fn all_solved(&self) -> bool;

    fn challenges(&self) -> (r: usize)
        ensures
            r == self.challenge_count(),
    ;

    fn completed_challenges(&self) -> (r: usize)
        requires
            self.completed_computable(),
        ensures
            r == self.completed_count(),
    ;

    fn stars(&self) -> (r: u32)
        requires
            self.performance_computable(),
        ensures
            r == spec_stars(self.performance_value()),
    {
        stars_for_performance(self.performance())
    }

    fn performance(&self) -> (r: u32)
        requires
            self.performance_computable(),
        ensures
            r == self.performance_value(),
    ;

    fn solved(&self) -> (r: bool)
        ensures
            r == self.all_solved(),
    ;
}

/// The challenge has at least one answer.
pub open spec fn has_answer(c: ChallengeView) -> bool {
    result_len(c.challenge_result) > 0
}

/// How many challenges of `h` have at least one answer.
pub open spec fn answered_count(h: Seq<ChallengeView>) -> nat {
    count_true(h.len(), |i: int| has_answer(h[i]))
}

impl ChallengeHistory {
    /// All the challenges played.
    pub fn challenges(&self) -> (r: usize)
        ensures
            r == self@.len(),
    {
        self.len()
    }

    /// The challenges played that have at least one answer.
    pub fn completed_challenges(&self) -> (r: usize)
        ensures
            r == answered_count(self@),
            r <= self@.len(),
    {
        let ghost h = self@;
        let ghost p = |i: int| has_answer(h[i]);
        let mut n: usize = 0;
        let mut i: usize = 0;
        while i < self.challenges.len()
            invariant
                h == self@,
                i <= h.len(),
                forall|k: int| #[trigger] p(k) == has_answer(h[k]),
                n == count_true(i as nat, p),
                n <= i,
            decreases h.len() - i,
        {
            if self.challenges[i].solved() {
                n = n + 1;
            }
            i = i + 1;
        }
        n
    }

    /// Whether every challenge played has an answer.
    pub fn solved(&self) -> (r: bool)
        ensures
            r == (forall|i: int| 0 <= i < self@.len() ==> has_answer(#[trigger] self@[i])),
    {
        let mut i: usize = 0;
        while i < self.challenges.len()
            invariant
                i <= self@.len(),
                forall|k: int| 0 <= k < i ==> has_answer(#[trigger] self@[k]),
            decreases self@.len() - i,
        {
            if !self.challenges[i].solved() {
                assert(!has_answer(self@[i as int]));
                return false;
            }
            i = i + 1;
        }
        true
    }
}

/// A play of the challenge configured with id `id`.
pub open spec fn plays(c: ChallengeView, id: Seq<char>) -> bool {
    c.challenge_config.id == id
}

/// A play of the challenge configured with id `id` that answered as many
/// tasks as its configuration has.
pub open spec fn complete_play(c: ChallengeView, id: Seq<char>) -> bool {
    plays(c, id) && result_len(c.challenge_result) == spec_task_count(c.challenge_config.tasks)
}

/// The sum of the performances of the first `n` challenges of `h`.
pub open spec fn performance_sum(h: Seq<ChallengeView>, n: nat) -> int
    decreases n,
{
    if n == 0 {
        0
    } else {
        performance_sum(h, (n - 1) as nat) + spec_performance(h[n - 1].challenge_type, h[n - 1].challenge_result)
    }
}

/// Every challenge of `h` can be scored, and the running sum of their
/// performances stays within `u32`.
pub open spec fn performances_summable(h: Seq<ChallengeView>) -> bool {
    &&& forall|i: int| 0 <= i < h.len() ==> performance_defined(#[trigger] h[i].challenge_type, h[i].challenge_result)
    &&& forall|n: nat| n <= h.len() ==> #[trigger] performance_sum(h, n) <= u32::MAX
}

proof fn lemma_performance_sum_nonneg(h: Seq<ChallengeView>, n: nat)
    requires
        n <= h.len(),
        forall|i: int| 0 <= i < h.len() ==> performance_defined(#[trigger] h[i].challenge_type, h[i].challenge_result),
    ensures
        performance_sum(h, n) >= 0,
    decreases n,
{
    if n > 0 {
        lemma_performance_sum_nonneg(h, (n - 1) as nat);
        lemma_performance_nonneg(h[n - 1].challenge_type, h[n - 1].challenge_result);
    }
}

proof fn lemma_performance_nonneg(t: super::challenge_type::ChallengeTypeView, r: super::challenge_result::ChallengeResultView)
    requires
        performance_defined(t, r),
    ensures
        spec_performance(t, r) >= 0,
{
}


impl<'a, 'b> ChallengeStats for (&'a ChallengeConfig, &'b ChallengeHistory) {
    open spec fn completed_computable(&self) -> bool {
        forall|i: int| 0 <= i < self.1@.len() && plays(#[trigger] self.1@[i], self.0@.id)
            ==> task_count_fits(self.1@[i].challenge_config.tasks)
    }

    open spec fn performance_computable(&self) -> bool {
        &&& performances_summable(self.1@)
        &&& (self.challenge_count() as u32) != 0 || self.challenge_count() == 0
    }

    open spec fn challenge_count(&self) -> int {
        count_true(self.1@.len(), |i: int| plays(self.1@[i], self.0@.id)) as int
    }

    open spec fn completed_count(&self) -> int {
        count_true(self.1@.len(), |i: int| complete_play(self.1@[i], self.0@.id)) as int
    }

    /// The sum of the performances of all challenges of the history, divided
    /// (rounded down) by the number of plays of this challenge; 0 without plays.
    open spec fn performance_value(&self) -> int {
        let n = self.challenge_count();
        if n == 0 {
            0
        } else {
            performance_sum(self.1@, self.1@.len()) / ((n as u32) as int)
        }
    }

    open spec fn all_solved(&self) -> bool {
        self.challenge_count() > 0
    }

    /// The plays of this challenge.
    fn challenges(&self) -> (r: usize) {
        let ghost h = self.1@;
        let ghost id = self.0@.id;
        let ghost p = |i: int| plays(h[i], id);
        let mut n: usize = 0;
        let mut i: usize = 0;
        while i < self.1.challenges.len()
            invariant
                h == self.1@,
                id == self.0@.id,
                i <= h.len(),
                forall|k: int| #[trigger] p(k) == plays(h[k], id),
                n == count_true(i as nat, p),
                n <= i,
            decreases h.len() - i,
        {
            if self.1.challenges[i].challenge_config.id == self.0.id {
                n = n + 1;
            }
            i = i + 1;
        }
        assert(self.challenge_count() == count_true(h.len(), p) as int);
        n
    }

    /// The plays of this challenge that answered all its tasks.
    fn completed_challenges(&self) -> (r: usize) {
        let ghost h = self.1@;
        let ghost id = self.0@.id;
        let ghost p = |i: int| complete_play(h[i], id);
        assert(self.completed_computable());
        let mut n: usize = 0;
        let mut i: usize = 0;
        while i < self.1.challenges.len()
            invariant
                h == self.1@,
                id == self.0@.id,
                i <= h.len(),
                forall|k: int| 0 <= k < h.len() && plays(#[trigger] h[k], id) ==> task_count_fits(h[k].challenge_config.tasks),
                forall|k: int| #[trigger] p(k) == complete_play(h[k], id),
                n == count_true(i as nat, p),
                n <= i,
            decreases h.len() - i,
        {
            let c = &self.1.challenges[i];
            if c.challenge_config.id == self.0.id {
                assert(plays(h[i as int], id));
                if c.challenge_result.len() == c.challenge_config.tasks.len() {
                    n = n + 1;
                }
            }
            i = i + 1;
        }
        assert(self.completed_count() == count_true(h.len(), p) as int);
        n
    }

    /// The average performance over the plays of this challenge.
    fn performance(&self) -> (r: u32) {
        assert(self.performance_computable());
        let challenges = self.challenges();
        if challenges == 0 {
            assert(self.performance_value() == 0);
            return 0;
        }
        let ghost h = self.1@;
        let mut total: u32 = 0;
        let mut i: usize = 0;
        while i < self.1.challenges.len()
            invariant
                h == self.1@,
                i <= h.len(),
                performances_summable(h),
                total == performance_sum(h, i as nat),
            decreases h.len() - i,
        {
            let c = &self.1.challenges[i];
            assert(performance_defined(h[i as int].challenge_type, h[i as int].challenge_result));
            let p = c.performance(&c.challenge_result);
            assert(performance_sum(h, (i + 1) as nat) <= u32::MAX);
            total = total + p;
            i = i + 1;
        }
        #[verifier::truncate]
        let n: u32 = challenges as u32;
        assert(self.performance_value() == performance_sum(h, h.len()) / (n as int));
        total / n
    }

    /// Whether this challenge was played at all.
    fn solved(&self) -> (r: bool) {
        let n = self.challenges();
        assert(self.all_solved() == (self.challenge_count() > 0));
        n > 0
    }
}

} // verus!
