//! Challenges that are solved one task at a time.

use super::challenge_input::ChallengeInput;
use super::error::ChallengeError;
use vstd::prelude::*;

verus! {

/// Something solved one task at a time.
pub trait Solvable {
    /// `solve` can be called on `self` without panicking.
    spec fn can_solve(&self) -> bool;

    /// Attempts to solve a part of the challenge with the given input.
    /// Returns `true` if the part is successfully solved, otherwise `false`.
    fn solve(&mut self, input: ChallengeInput) -> Result<bool, ChallengeError>
        requires
            old(self).can_solve(),
    ;
}

} // verus!
