//! Reviews that players give challenges.

use crate::equality::Equals;
use vstd::prelude::*;

verus! {

/// A player's review of a challenge.
#[derive(Debug, PartialEq)]
pub struct Review {
    pub challenge_id: String,
    pub rating: u8,
    pub comment: Option<String>,
}

/// The value of a [`Review`].
pub struct ReviewView {
    pub challenge_id: Seq<char>,
    pub rating: u8,
    pub comment: Option<Seq<char>>,
}

impl DeepView for Review {
    type V = ReviewView;

    open spec fn deep_view(&self) -> ReviewView {
        ReviewView {
            challenge_id: self.challenge_id@,
            rating: self.rating,
            comment: self.comment.deep_view(),
        }
    }
}

impl View for Review {
    type V = ReviewView;

    open spec fn view(&self) -> ReviewView {
        self.deep_view()
    }
}

impl Clone for Review {
    fn clone(&self) -> (r: Self)
        ensures
            r@ == self@,
    {
        let challenge_id = self.challenge_id.clone();
        let rating = self.rating;
        let comment = self.comment.clone();
        Review { challenge_id, rating, comment }
    }
}

impl Equals for Review {
    fn equals(&self, other: &Self) -> (r: bool) {
        self.challenge_id.equals(&other.challenge_id)
            && self.rating == other.rating
            && self.comment.equals(&other.comment)
    }
}
} // verus!
