//! The challenges a player has played, oldest first.

use super::challenge::{Challenge, ChallengeView};
use crate::equality::Equals;
use vstd::prelude::*;

verus! {

/// The challenges a player has played, oldest first.
#[derive(Debug, PartialEq)]
pub struct ChallengeHistory {
    pub challenges: Vec<Challenge>,
}

impl View for ChallengeHistory {
    type V = Seq<ChallengeView>;

    open spec fn view(&self) -> Seq<ChallengeView> {
        self.challenges.deep_view()
    }
}

impl DeepView for ChallengeHistory {
    type V = Seq<ChallengeView>;

    open spec fn deep_view(&self) -> Seq<ChallengeView> {
        self@
    }
}

impl Clone for ChallengeHistory {
    fn clone(&self) -> (r: Self)
        ensures
            r@ == self@,
    {
        let challenges = self.challenges.clone();
        assert(challenges.deep_view() =~= self.challenges.deep_view());
        ChallengeHistory { challenges }
    }
}

impl Equals for ChallengeHistory {
    fn equals(&self, other: &Self) -> (r: bool) {
        self.challenges.equals(&other.challenges)
    }
}

impl Default for ChallengeHistory {
    fn default() -> (r: ChallengeHistory)
        ensures
            r@ == Seq::<ChallengeView>::empty(),
    {
        ChallengeHistory::new()
    }
}

/// `h` after adding `c`: unchanged when `c` equals its last challenge,
/// otherwise with `c` appended.
pub open spec fn spec_add_challenge(h: Seq<ChallengeView>, c: ChallengeView) -> Seq<ChallengeView> {
    if h.len() > 0 && h.last() == c {
        h
    } else {
        h.push(c)
    }
}

/// `h` after merging in `o`: each challenge of `o`, in order, appended
/// unless an equal one is already there.
pub open spec fn spec_merge(h: Seq<ChallengeView>, o: Seq<ChallengeView>) -> Seq<ChallengeView>
    decreases o.len(),
{
    if o.len() == 0 {
        h
    } else {
        let m = spec_merge(h, o.drop_last());
        if m.contains(o.last()) {
            m
        } else {
            m.push(o.last())
        }
    }
}

/// No two neighbouring challenges of `h` are equal.
pub open spec fn no_repeats_in_a_row(h: Seq<ChallengeView>) -> bool {
    forall|i: int| 0 <= i < h.len() - 1 ==> #[trigger] h[i] != h[i + 1]
}

/// No challenge occurs twice in `h`.
pub open spec fn all_distinct(h: Seq<ChallengeView>) -> bool {
    forall|i: int, j: int| 0 <= i < j < h.len() ==> h[i] != h[j]
}

/// Whether `v` holds a challenge equal to `c`.
fn contains_challenge(v: &Vec<Challenge>, c: &Challenge) -> (r: bool)
    ensures
        r == v.deep_view().contains(c@),
{
    let mut i: usize = 0;
    while i < v.len()
        invariant
            i <= v@.len(),
            forall|k: int| 0 <= k < i ==> v.deep_view()[k] != c@,
        decreases v@.len() - i,
    {
        if v[i].equals(c) {
            assert(v.deep_view()[i as int] == c@);
            return true;
        }
        i = i + 1;
    }
    proof {
        if v.deep_view().contains(c@) {
            let k = choose|k: int| 0 <= k < v.deep_view().len() && v.deep_view()[k] == c@;
            assert(v.deep_view()[k] != c@);
        }
    }
    false
}

impl ChallengeHistory {
    /// An empty history.
    pub fn new() -> (r: ChallengeHistory)
        ensures
            r@ == Seq::<ChallengeView>::empty(),
    {
        let challenges: Vec<Challenge> = Vec::new();
        assert(challenges.deep_view() =~= Seq::<ChallengeView>::empty());
        ChallengeHistory { challenges }
    }

    /// Add a challenge to the history if it is different from the last one.
    pub fn add_challenge(&mut self, challenge: Challenge)
        ensures
            final(self)@ == spec_add_challenge(old(self)@, challenge@),
    {
        let ghost old_h = self@;
        let n = self.challenges.len();
        if n > 0 && self.challenges[n - 1].equals(&challenge) {
            assert(old_h.last() == challenge@);
            return;
        }
        let ghost cv = challenge@;
        self.challenges.push(challenge);
        assert(self@ =~= old_h.push(cv));
    }

    /// The number of challenges played.
    pub fn len(&self) -> (r: usize)
        ensures
            r == self@.len(),
    {
        self.challenges.len()
    }

    /// Whether no challenge was played.
    pub fn is_empty(&self) -> (r: bool)
        ensures
            r == (self@.len() == 0),
    {
        self.challenges.is_empty()
    }

    /// Appends every challenge of `other`, in order.
    pub fn extend(&mut self, other: &ChallengeHistory)
        ensures
            final(self)@ == old(self)@ + other@,
    {
        let ghost old_h = self@;
        let mut i: usize = 0;
        while i < other.challenges.len()
            invariant
                i <= other@.len(),
                self@ == old_h + other@.take(i as int),
            decreases other@.len() - i,
        {
            let c = other.challenges[i].clone();
            let ghost before = self@;
            self.challenges.push(c);
            assert(self@ =~= before.push(other@[i as int]));
            assert(other@.take(i + 1) =~= other@.take(i as int).push(other@[i as int]));
            i = i + 1;
        }
        assert(other@.take(i as int) =~= other@);
    }

    /// Appends each challenge of `other`, in order, that the history does
    /// not hold yet.
    pub fn merge(&mut self, other: &ChallengeHistory)
        ensures
            final(self)@ == spec_merge(old(self)@, other@),
    {
        let ghost old_h = self@;
        let mut i: usize = 0;
        while i < other.challenges.len()
            invariant
                i <= other@.len(),
                self@ == spec_merge(old_h, other@.take(i as int)),
            decreases other@.len() - i,
        {
            assert(other@.take(i + 1).drop_last() =~= other@.take(i as int));
            let c = &other.challenges[i];
            if !contains_challenge(&self.challenges, c) {
                let ghost before = self@;
                self.challenges.push(c.clone());
                assert(self@ =~= before.push(other@[i as int]));
            }
            i = i + 1;
        }
        assert(other@.take(i as int) =~= other@);
    }
}

/// Adding a challenge keeps a history free of equal neighbours, and the
/// added challenge is then the last one.
pub proof fn lemma_add_challenge_no_repeats(h: Seq<ChallengeView>, c: ChallengeView)
    requires
        no_repeats_in_a_row(h),
    ensures
        no_repeats_in_a_row(spec_add_challenge(h, c)),
        spec_add_challenge(h, c).last() == c,
        spec_add_challenge(h, c).len() == h.len() || spec_add_challenge(h, c) == h.push(c),
{
    let r = spec_add_challenge(h, c);
    if !(h.len() > 0 && h.last() == c) {
        assert forall|i: int| 0 <= i < r.len() - 1 implies #[trigger] r[i] != r[i + 1] by {
            if i + 1 < h.len() {
                assert(r[i] == h[i] && r[i + 1] == h[i + 1]);
            }
        }
    }
}

/// After a merge the history holds every challenge it held and every
/// challenge of the merged history, and it still starts with what it held.
pub proof fn lemma_merge_keeps_all(h: Seq<ChallengeView>, o: Seq<ChallengeView>)
    ensures
        spec_merge(h, o).len() >= h.len(),
        spec_merge(h, o).subrange(0, h.len() as int) == h,
        forall|c: ChallengeView| #[trigger] h.contains(c) ==> spec_merge(h, o).contains(c),
        forall|c: ChallengeView| #[trigger] o.contains(c) ==> spec_merge(h, o).contains(c),
    decreases o.len(),
{
    if o.len() > 0 {
        let p = o.drop_last();
        lemma_merge_keeps_all(h, p);
        let m = spec_merge(h, p);
        let r = spec_merge(h, o);
        assert(r.subrange(0, h.len() as int) =~= h) by {
            assert(m.subrange(0, h.len() as int) =~= h);
        }
        assert forall|c: ChallengeView| #[trigger] h.contains(c) implies r.contains(c) by {
            assert(m.contains(c));
            let k = choose|k: int| 0 <= k < m.len() && m[k] == c;
            assert(r[k] == c);
        }
        assert forall|c: ChallengeView| #[trigger] o.contains(c) implies r.contains(c) by {
            let k = choose|k: int| 0 <= k < o.len() && o[k] == c;
            if k < p.len() {
                assert(p[k] == c);
                assert(p.contains(c));
                let j = choose|j: int| 0 <= j < m.len() && m[j] == c;
                assert(r[j] == c);
            } else {
                assert(o.last() == c);
                if !m.contains(c) {
                    assert(r[r.len() - 1] == c);
                }
            }
        }
    }
}

/// A merge adds no challenge twice: merging into a history without
/// repeated challenges gives one without repeated challenges.
pub proof fn lemma_merge_all_distinct(h: Seq<ChallengeView>, o: Seq<ChallengeView>)
    requires
        all_distinct(h),
    ensures
        all_distinct(spec_merge(h, o)),
    decreases o.len(),
{
    if o.len() > 0 {
        let p = o.drop_last();
        lemma_merge_all_distinct(h, p);
        let m = spec_merge(h, p);
        if !m.contains(o.last()) {
            let r = m.push(o.last());
            assert forall|i: int, j: int| 0 <= i < j < r.len() implies r[i] != r[j] by {
                if j == r.len() - 1 {
                    if r[i] == r[j] {
                        assert(m[i] == o.last());
                    }
                }
            }
        }
    }
}

/// Merging in a history whose challenges are all held already changes nothing.
pub proof fn lemma_merge_held(h: Seq<ChallengeView>, o: Seq<ChallengeView>)
    requires
        forall|c: ChallengeView| #[trigger] o.contains(c) ==> h.contains(c),
    ensures
        spec_merge(h, o) == h,
    decreases o.len(),
{
    if o.len() > 0 {
        let p = o.drop_last();
        assert forall|c: ChallengeView| #[trigger] p.contains(c) implies h.contains(c) by {
            let k = choose|k: int| 0 <= k < p.len() && p[k] == c;
            assert(o[k] == c);
            assert(o.contains(c));
        }
        lemma_merge_held(h, p);
        assert(o[o.len() - 1] == o.last());
        assert(o.contains(o.last()));
    }
}

} // verus!
