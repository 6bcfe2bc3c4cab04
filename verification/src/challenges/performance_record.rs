//! The record of how a player did on a game path: the best performance on
//! each challenge played and the time it took.

use super::challenge::{Challenge, ChallengeView};
use super::challenge_history::ChallengeHistory;
use super::challenge_type::{performance_defined, spec_performance};
use super::performance::Performance;
use super::timed::{spec_elapsed, Timed};
use crate::text::same_text;
use vstd::prelude::*;
use vstd::seq_lib::*;

verus! {

/// Milliseconds a challenge took.
pub type ChallengeTimeMilliseconds = u64;

/// The id of a challenge's configuration.
pub type ChallengeId = String;

/// A performance, in percent.
pub type ChallengePercentage = u8;

/// A challenge's id, its performance and the time it took.
pub type ChallengePerformance = (ChallengeId, ChallengePercentage, ChallengeTimeMilliseconds);

/// How a player did on a game path.
#[derive(Debug, PartialEq)]
pub struct PerformanceRecord {
    pub game_path_id: String,
    pub profile_name: String,
    pub challenges_performance: Vec<ChallengePerformance>,
    pub total_challenges: usize,
    pub performance_percentage: u8,
    /// When it was recorded, in milliseconds since the Unix epoch
    pub date: i64,
}

/// A performance entry as a value.
pub type PerformanceEntry = (Seq<char>, u8, u64);

/// The milliseconds a challenge took, as the record keeps them: the
/// difference of its times read as a `u64`, or 0 without both times.
pub open spec fn elapsed_ms(c: ChallengeView) -> u64 {
    match spec_elapsed(c.start_time, c.end_time) {
        Some(d) => d as u64,
        None => 0,
    }
}

/// The entry a challenge makes: its id, its performance read as a `u8`,
/// and the milliseconds it took.
pub open spec fn entry_of(c: ChallengeView) -> PerformanceEntry {
    (c.challenge_config.id, spec_performance(c.challenge_type, c.challenge_result) as u8, elapsed_ms(c))
}

/// No id occurs twice among the entries.
pub open spec fn unique_ids(b: Seq<PerformanceEntry>) -> bool {
    forall|i: int, j: int| 0 <= i < j < b.len() ==> b[i].0 != b[j].0
}

/// The entry kept when `e` meets the kept entry `old` of the same id: the
/// better performance with its time, and of equal performances the shorter time.
pub open spec fn merged(old: PerformanceEntry, e: PerformanceEntry) -> PerformanceEntry {
    if e.1 > old.1 {
        e
    } else if e.2 < old.2 && e.1 == old.1 {
        (old.0, old.1, e.2)
    } else {
        old
    }
}

/// `b` after meeting entry `e`: merged into the entry of its id, or appended.
pub open spec fn with_entry(b: Seq<PerformanceEntry>, e: PerformanceEntry) -> Seq<PerformanceEntry> {
    if exists|i: int| 0 <= i < b.len() && b[i].0 == e.0 {
        let i = choose|i: int| 0 <= i < b.len() && b[i].0 == e.0;
        b.update(i, merged(b[i], e))
    } else {
        b.push(e)
    }
}

/// The best entry of each challenge id of `h`, in the order the ids first occur.
pub open spec fn best_entries(h: Seq<ChallengeView>) -> Seq<PerformanceEntry>
    decreases h.len(),
{
    if h.len() == 0 {
        Seq::empty()
    } else {
        with_entry(best_entries(h.drop_last()), entry_of(h.last()))
    }
}

/// `a` comes no later than `b`: a shorter time, or the same time and a
/// performance at least as good.
pub open spec fn in_order(a: PerformanceEntry, b: PerformanceEntry) -> bool {
    a.2 < b.2 || (a.2 == b.2 && a.1 >= b.1)
}

/// The entries are ordered by time, shortest first, and equal times by
/// performance, best first.
pub open spec fn by_time_then_performance(s: Seq<PerformanceEntry>) -> bool {
    forall|i: int, j: int| 0 <= i < j < s.len() ==> in_order(s[i], s[j])
}

/// Every challenge of the history can be scored.
pub open spec fn all_scorable(h: Seq<ChallengeView>) -> bool {
    forall|i: int| 0 <= i < h.len() ==> performance_defined(#[trigger] h[i].challenge_type, h[i].challenge_result)
}

/// The position of the entry with id `id`, where there is one.
fn entry_position(best: &Vec<ChallengePerformance>, id: &String) -> (r: Option<usize>)
    ensures
        match r {
            Some(i) => i < best@.len() && best.deep_view()[i as int].0 == id@,
            None => forall|i: int| 0 <= i < best@.len() ==> best.deep_view()[i].0 != id@,
        },
{
    let mut j: usize = 0;
    while j < best.len()
        invariant
            j <= best@.len(),
            forall|i: int| 0 <= i < j ==> best.deep_view()[i].0 != id@,
        decreases best@.len() - j,
    {
        if same_text(best[j].0.as_str(), id.as_str()) {
            return Some(j);
        }
        j = j + 1;
    }
    None
}

/// The entry a challenge makes.
fn entry_for(c: &Challenge) -> (r: ChallengePerformance)
    requires
        performance_defined(c@.challenge_type, c@.challenge_result),
    ensures
        r.deep_view() == entry_of(c@),
{
    let id = c.challenge_config.id.clone();
    let p = c.performance(&c.challenge_result);
    #[verifier::truncate]
    let performance: u8 = p as u8;
    let elapsed: u64 = match c.elapsed_time() {
        Some(d) => {
            #[verifier::truncate]
            let t: u64 = d as u64;
            t
        },
        None => 0,
    };
    (id, performance, elapsed)
}

/// The best entry of each challenge played, in the order the challenges
/// were first played.
fn best_of(history: &ChallengeHistory) -> (r: Vec<ChallengePerformance>)
    requires
        all_scorable(history@),
    ensures
        r.deep_view() == best_entries(history@),
        unique_ids(r.deep_view()),
{
    let ghost h = history@;
    let mut best: Vec<ChallengePerformance> = Vec::new();
    let mut k: usize = 0;
    while k < history.challenges.len()
        invariant
            h == history@,
            all_scorable(h),
            k <= h.len(),
            best.deep_view() == best_entries(h.take(k as int)),
            unique_ids(best.deep_view()),
        decreases h.len() - k,
    {
        assert(h.take(k + 1).drop_last() =~= h.take(k as int));
        assert(h.take(k + 1).last() == h[k as int]);
        let c = &history.challenges[k];
        assert(performance_defined(h[k as int].challenge_type, h[k as int].challenge_result));
        let e = entry_for(c);
        let ghost before = best.deep_view();
        match entry_position(&best, &e.0) {
            None => {
                best.push(e);
                assert(best.deep_view() =~= before.push(e.deep_view()));
            },
            Some(i) => {
                let ghost j = choose|j: int| 0 <= j < before.len() && before[j].0 == e.0@;
                assert(j == i as int);
                let p = best[i].1;
                let t = best[i].2;
                if e.1 > p {
                    best.set(i, e);
                } else if e.2 < t && e.1 == p {
                    best.set(i, (e.0, p, e.2));
                }
                assert(best.deep_view() =~= before.update(i as int, merged(before[i as int], e.deep_view())));
            },
        }
        k = k + 1;
    }
    assert(h.take(k as int) =~= h);
    best
}

/// The entries of `best`, ordered by time, shortest first, and equal times
/// by performance, best first.
fn ordered(best: &Vec<ChallengePerformance>) -> (r: Vec<ChallengePerformance>)
    ensures
        r.deep_view().to_multiset() == best.deep_view().to_multiset(),
        by_time_then_performance(r.deep_view()),
{
    broadcast use {to_multiset_insert, to_multiset_build};
    let ghost b = best.deep_view();
    let mut sorted: Vec<ChallengePerformance> = Vec::new();
    proof {
        assert(sorted.deep_view() =~= b.take(0));
    }
    let mut k: usize = 0;
    while k < best.len()
        invariant
            b == best.deep_view(),
            k <= b.len(),
            sorted.deep_view().to_multiset() == b.take(k as int).to_multiset(),
            by_time_then_performance(sorted.deep_view()),
        decreases b.len() - k,
    {
        let e = (best[k].0.clone(), best[k].1, best[k].2);
        let ghost s = sorted.deep_view();
        let mut pos: usize = 0;
        while pos < sorted.len() && in_order_exec(&sorted[pos], &e)
            invariant
                s == sorted.deep_view(),
                pos <= s.len(),
                forall|i: int| 0 <= i < pos ==> in_order(s[i], e.deep_view()),
            decreases s.len() - pos,
        {
            pos = pos + 1;
        }
        sorted.insert(pos, e);
        assert(sorted.deep_view() =~= s.insert(pos as int, e.deep_view()));
        assert(b.take(k + 1) =~= b.take(k as int).push(b[k as int]));
        assert(e.deep_view() == b[k as int]);
        proof {
            to_multiset_insert(s, pos as int, e.deep_view());
            to_multiset_build(b.take(k as int), b[k as int]);
        }
        assert forall|i: int, j: int| 0 <= i < j < sorted.deep_view().len()
            implies in_order(sorted.deep_view()[i], sorted.deep_view()[j]) by {
            let t = sorted.deep_view();
            if j < pos {
            } else if j == pos {
            } else if i < pos {
                assert(in_order(s[i], e.deep_view()));
                assert(in_order(e.deep_view(), s[pos as int]));
            } else if i == pos {
                assert(in_order(e.deep_view(), s[pos as int]));
                if j - 1 > pos {
                    assert(in_order(s[pos as int], s[j - 1]));
                }
            } else {
                assert(t[i] == s[i - 1] && t[j] == s[j - 1]);
            }
        }
        k = k + 1;
    }
    assert(b.take(k as int) =~= b);
    sorted
}

/// Whether `a` comes no later than `b`.
fn in_order_exec(a: &ChallengePerformance, b: &ChallengePerformance) -> (r: bool)
    ensures
        r == in_order(a.deep_view(), b.deep_view()),
{
    a.2 < b.2 || (a.2 == b.2 && a.1 >= b.1)
}

/// The best entry of each challenge of `history`, ordered by time, shortest
/// first, and equal times by performance, best first.
pub fn best_challenge_performances(history: &ChallengeHistory) -> (r: Vec<ChallengePerformance>)
    requires
        all_scorable(history@),
    ensures
        r.deep_view().to_multiset() == best_entries(history@).to_multiset(),
        by_time_then_performance(r.deep_view()),
{
    let best = best_of(history);
    ordered(&best)
}

/// The sum of the times of the entries.
pub open spec fn total_time(s: Seq<PerformanceEntry>) -> int
    decreases s.len(),
{
    if s.len() == 0 {
        0
    } else {
        total_time(s.drop_last()) + s.last().2
    }
}

impl PerformanceRecord {
    /// A record with the given entries and percentage.
    pub fn with_percentage(
        game_path_id: String,
        profile_name: String,
        challenges_performance: Vec<ChallengePerformance>,
        total_challenges: usize,
        performance_percentage: u8,
        date: i64,
    ) -> (r: PerformanceRecord)
        ensures
            r.game_path_id@ == game_path_id@,
            r.profile_name@ == profile_name@,
            r.challenges_performance.deep_view() == challenges_performance.deep_view(),
            r.total_challenges == total_challenges,
            r.performance_percentage == performance_percentage,
            r.date == date,
    {
        PerformanceRecord {
            game_path_id,
            profile_name,
            challenges_performance,
            total_challenges,
            performance_percentage,
            date,
        }
    }
}

impl Timed for PerformanceRecord {
    /// A record does not start: nothing changes.
    fn start(&mut self)
        ensures
            *final(self) == *old(self),
    {
    }

    /// A record does not end: nothing changes.
    fn update_end_time(&mut self)
        ensures
            *final(self) == *old(self),
    {
    }

    /// The sum of the times of its entries, when it fits in an `i64`.
    fn elapsed_time(&self) -> (r: Option<i64>)
        ensures
            r matches Some(t) ==> t == total_time(self.challenges_performance.deep_view()),
            r is None ==> total_time(self.challenges_performance.deep_view()) > i64::MAX,
    {
        let ghost s = self.challenges_performance.deep_view();
        let mut total: i64 = 0;
        let mut i: usize = 0;
        while i < self.challenges_performance.len()
            invariant
                s == self.challenges_performance.deep_view(),
                i <= s.len(),
                total == total_time(s.take(i as int)),
                total >= 0,
            decreases s.len() - i,
        {
            assert(s.take(i + 1).drop_last() =~= s.take(i as int));
            assert(s.take(i + 1).last() == s[i as int]);
            let t = self.challenges_performance[i].2;
            if t > i64::MAX as u64 || total > i64::MAX - (t as i64) {
                proof {
                    lemma_total_time_grows(s, i as int + 1);
                }
                return None;
            }
            total = total + t as i64;
            i = i + 1;
        }
        assert(s.take(i as int) =~= s);
        Some(total)
    }

    /// The date of the record.
    fn start_time(&self) -> (r: Option<i64>)
        ensures
            r == Some(self.date),
    {
        Some(self.date)
    }

    /// The date of the record plus the time of its entries; `None` exactly
    /// when the time of the entries or that sum does not fit in an `i64`.
    fn end_time(&self) -> (r: Option<i64>)
        ensures
            r matches Some(t) ==> t == self.date + total_time(self.challenges_performance.deep_view()),
            r is None <==> (total_time(self.challenges_performance.deep_view()) > i64::MAX
                || self.date + total_time(self.challenges_performance.deep_view()) > i64::MAX
                || self.date + total_time(self.challenges_performance.deep_view()) < i64::MIN),
    {
        match self.elapsed_time() {
            Some(e) => self.date.checked_add(e),
            None => None,
        }
    }
}

/// The total time never shrinks as entries are added.
proof fn lemma_total_time_grows(s: Seq<PerformanceEntry>, n: int)
    requires
        0 <= n <= s.len(),
    ensures
        total_time(s.take(n)) <= total_time(s),
    decreases s.len() - n,
{
    if n < s.len() {
        lemma_total_time_grows(s, n + 1);
        assert(s.take(n + 1).drop_last() =~= s.take(n));
    } else {
        assert(s.take(n) =~= s);
    }
}


/// Some play of `h` makes exactly the entry `e`.
pub open spec fn made_by_a_play(h: Seq<ChallengeView>, e: PerformanceEntry) -> bool {
    exists|k: int| 0 <= k < h.len() && #[trigger] entry_of(h[k]) == e
}

/// No play of `h` with the id of `e` reached a better performance than `e`.
pub open spec fn best_performance_of_id(h: Seq<ChallengeView>, e: PerformanceEntry) -> bool {
    forall|k: int| 0 <= k < h.len() && (#[trigger] entry_of(h[k])).0 == e.0 ==> entry_of(h[k]).1 <= e.1
}

/// No play of `h` with the id and the performance of `e` took less time than `e`.
pub open spec fn shortest_at_that_performance(h: Seq<ChallengeView>, e: PerformanceEntry) -> bool {
    forall|k: int| 0 <= k < h.len() && (#[trigger] entry_of(h[k])).0 == e.0 && entry_of(h[k]).1 == e.1
        ==> e.2 <= entry_of(h[k]).2
}

/// Some entry of `b` has id `id`.
pub open spec fn has_entry_for(b: Seq<PerformanceEntry>, id: Seq<char>) -> bool {
    exists|i: int| 0 <= i < b.len() && (#[trigger] b[i]).0 == id
}

/// The best entries hold one entry per challenge id played, and nothing
/// else; each is the entry of one of the plays of its id, with the best
/// performance any play of that id reached and, among the plays that reached
/// it, the shortest time.
pub proof fn lemma_best_entries_keep_best_and_fastest(h: Seq<ChallengeView>)
    ensures
        unique_ids(best_entries(h)),
        forall|k: int| 0 <= k < h.len() ==> has_entry_for(best_entries(h), (#[trigger] entry_of(h[k])).0),
        forall|i: int| 0 <= i < best_entries(h).len() ==> {
            &&& made_by_a_play(h, #[trigger] best_entries(h)[i])
            &&& best_performance_of_id(h, best_entries(h)[i])
            &&& shortest_at_that_performance(h, best_entries(h)[i])
        },
    decreases h.len(),
{
    if h.len() == 0 {
        return;
    }
    let hp = h.drop_last();
    lemma_best_entries_keep_best_and_fastest(hp);
    let bp = best_entries(hp);
    let e = entry_of(h.last());
    let b = best_entries(h);
    let n = hp.len() as int;
    assert(b == with_entry(bp, e));
    assert forall|k: int| 0 <= k < hp.len() implies #[trigger] h[k] == hp[k] by {}
    assert(h[n] == h.last());
    if exists|i: int| 0 <= i < bp.len() && bp[i].0 == e.0 {
        let i = choose|i: int| 0 <= i < bp.len() && bp[i].0 == e.0;
        let m = merged(bp[i], e);
        assert(b == bp.update(i, m));
        assert(m.0 == e.0);
        assert forall|x: int, y: int| 0 <= x < y < b.len() implies b[x].0 != b[y].0 by {
            assert(bp[x].0 != bp[y].0);
        }
        assert forall|k: int| 0 <= k < h.len() implies has_entry_for(b, (#[trigger] entry_of(h[k])).0) by {
            if k < n {
                assert(entry_of(hp[k]) == entry_of(h[k]));
                assert(has_entry_for(bp, entry_of(hp[k]).0));
                let j = choose|j: int| 0 <= j < bp.len() && (#[trigger] bp[j]).0 == entry_of(h[k]).0;
                assert(b[j].0 == bp[j].0);
            } else {
                assert(b[i].0 == e.0);
            }
        }
        assert forall|j: int| 0 <= j < b.len() implies {
            &&& made_by_a_play(h, #[trigger] b[j])
            &&& best_performance_of_id(h, b[j])
            &&& shortest_at_that_performance(h, b[j])
        } by {
            let old = bp[j];
            assert(made_by_a_play(hp, old));
            assert(best_performance_of_id(hp, old));
            assert(shortest_at_that_performance(hp, old));
            let k0 = choose|k: int| 0 <= k < hp.len() && #[trigger] entry_of(hp[k]) == old;
            if j == i {
                if e.1 > old.1 || (e.2 < old.2 && e.1 == old.1) {
                    assert(m == e);
                    assert(entry_of(h[n]) == b[j]);
                } else {
                    assert(m == old);
                    assert(entry_of(h[k0]) == b[j]);
                }
                assert forall|k: int| 0 <= k < h.len() && (#[trigger] entry_of(h[k])).0 == b[j].0
                    implies entry_of(h[k]).1 <= b[j].1 by {
                    if k < n {
                        assert(entry_of(hp[k]).0 == old.0);
                    }
                }
                assert forall|k: int| 0 <= k < h.len() && (#[trigger] entry_of(h[k])).0 == b[j].0 && entry_of(h[k]).1 == b[j].1
                    implies b[j].2 <= entry_of(h[k]).2 by {
                    if k < n {
                        assert(entry_of(hp[k]).0 == old.0);
                        assert(entry_of(hp[k]).1 <= old.1);
                    }
                }
            } else {
                assert(b[j] == old);
                assert(old.0 != e.0);
                assert(entry_of(h[k0]) == b[j]);
                assert forall|k: int| 0 <= k < h.len() && (#[trigger] entry_of(h[k])).0 == b[j].0
                    implies entry_of(h[k]).1 <= b[j].1 by {
                    if k < n {
                        assert(entry_of(hp[k]).0 == old.0);
                    }
                }
                assert forall|k: int| 0 <= k < h.len() && (#[trigger] entry_of(h[k])).0 == b[j].0 && entry_of(h[k]).1 == b[j].1
                    implies b[j].2 <= entry_of(h[k]).2 by {
                    if k < n {
                        assert(entry_of(hp[k]).0 == old.0);
                    }
                }
            }
        }
    } else {
        assert(b == bp.push(e));
        assert forall|x: int, y: int| 0 <= x < y < b.len() implies b[x].0 != b[y].0 by {
            if y < bp.len() {
                assert(bp[x].0 != bp[y].0);
            } else {
                assert(b[x] == bp[x]);
            }
        }
        assert forall|k: int| 0 <= k < h.len() implies has_entry_for(b, (#[trigger] entry_of(h[k])).0) by {
            if k < n {
                assert(entry_of(hp[k]) == entry_of(h[k]));
                assert(has_entry_for(bp, entry_of(hp[k]).0));
                let j = choose|j: int| 0 <= j < bp.len() && (#[trigger] bp[j]).0 == entry_of(h[k]).0;
                assert(b[j] == bp[j]);
            } else {
                assert(b[bp.len() as int] == e);
            }
        }
        assert forall|j: int| 0 <= j < b.len() implies {
            &&& made_by_a_play(h, #[trigger] b[j])
            &&& best_performance_of_id(h, b[j])
            &&& shortest_at_that_performance(h, b[j])
        } by {
            if j < bp.len() {
                let old = bp[j];
                assert(b[j] == old);
                assert(made_by_a_play(hp, old));
                assert(best_performance_of_id(hp, old));
                assert(shortest_at_that_performance(hp, old));
                let k0 = choose|k: int| 0 <= k < hp.len() && #[trigger] entry_of(hp[k]) == old;
                assert(entry_of(h[k0]) == b[j]);
                assert(old.0 != e.0);
                assert forall|k: int| 0 <= k < h.len() && (#[trigger] entry_of(h[k])).0 == b[j].0
                    implies entry_of(h[k]).1 <= b[j].1 by {
                    if k < n {
                        assert(entry_of(hp[k]).0 == old.0);
                    }
                }
                assert forall|k: int| 0 <= k < h.len() && (#[trigger] entry_of(h[k])).0 == b[j].0 && entry_of(h[k]).1 == b[j].1
                    implies b[j].2 <= entry_of(h[k]).2 by {
                    if k < n {
                        assert(entry_of(hp[k]).0 == old.0);
                    }
                }
            } else {
                assert(b[j] == e);
                assert(entry_of(h[n]) == b[j]);
                assert forall|k: int| 0 <= k < h.len() && (#[trigger] entry_of(h[k])).0 == b[j].0
                    implies entry_of(h[k]).1 <= b[j].1 by {
                    if k < n {
                        assert(entry_of(hp[k]) == entry_of(h[k]));
                        assert(has_entry_for(bp, entry_of(hp[k]).0));
                    }
                }
                assert forall|k: int| 0 <= k < h.len() && (#[trigger] entry_of(h[k])).0 == b[j].0 && entry_of(h[k]).1 == b[j].1
                    implies b[j].2 <= entry_of(h[k]).2 by {
                    if k < n {
                        assert(entry_of(hp[k]) == entry_of(h[k]));
                        assert(has_entry_for(bp, entry_of(hp[k]).0));
                    }
                }
            }
        }
    }
}

} // verus!
