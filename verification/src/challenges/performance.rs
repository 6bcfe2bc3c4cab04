//! How well a result does on a challenge, in percent and in stars.

use super::challenge_result::{ChallengeResult, ChallengeResultView};
use vstd::prelude::*;

verus! {

/// Stars for a performance: 3 from 80 %, 2 from 60 %, 1 from 40 %, else 0.
pub open spec fn spec_stars(performance: int) -> int {
    if performance >= 80 {
        3
    } else if performance >= 60 {
        2
    } else if performance >= 40 {
        1
    } else {
        0
    }
}

/// The stars a performance earns.
pub fn stars_for_performance(performance: u32) -> (stars: u32)
    ensures
        stars == spec_stars(performance as int),
{
    if performance >= 80 {
        3
    } else if performance >= 60 {
        2
    } else if performance >= 40 {
        1
    } else {
        0
    }
}

/// Something a result can be scored against.
pub trait Performance {
    /// `result` can be scored against `self` without panicking.
    spec fn can_score(&self, result: ChallengeResultView) -> bool;

    /// The performance of `result` on `self`, in percent.
    spec fn performance_of(&self, result: ChallengeResultView) -> int;

    /// Returns the performance in percentage.
    fn performance(&self, result: &ChallengeResult) -> (r: u32)
        requires
            self.can_score(result@),
        ensures
            r == self.performance_of(result@),
    ;

    /// Returns the number of stars based on the performance: 3 stars for 80%
    /// or more, 2 stars for 60% or more, 1 star for 40% or more, 0 stars otherwise.
    fn stars(&self, result: &ChallengeResult) -> (r: u32)
        requires
            self.can_score(result@),
        ensures
            r == spec_stars(self.performance_of(result@)),
    {
        stars_for_performance(self.performance(result))
    }
}

/// More performance never earns fewer stars, and there are at most three.
pub proof fn lemma_stars_monotone(p: int, q: int)
    requires
        p <= q,
    ensures
        0 <= spec_stars(p) <= spec_stars(q) <= 3,
{
}

} // verus!
