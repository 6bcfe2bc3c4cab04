//! Patterns that say which tasks of a challenge are played: the first `n`,
//! a range of positions, or `n` drawn at random.

use crate::text::{
    chars_equal, chars_of, find_from, first_occurrence, i32_to_text, lemma_first_occurrence_bounds,
    lemma_split_shape, parse_i32_in, parse_usize_in, spec_parse_i32, spec_parse_usize, split_on, occurs_at,
    usize_to_text, signed_decimal, decimal, sub_chars, is_digit, all_digits, lemma_no_occurrence_from,
    lemma_first_occurrence_is, lemma_decimal_chars, lemma_signed_decimal_chars, lemma_parse_usize_decimal,
    lemma_parse_i32_decimal,
};
use rand::seq::SliceRandom;
use std::ops::RangeInclusive;
use vstd::prelude::*;
use vstd::std_specs::range::RangeInclusiveView;

verus! {

/// `RangeInclusive::start`: the lower bound the range was made with.
#[verifier::external_body]
fn range_start(r: &RangeInclusive<i32>) -> (s: i32)
    ensures
        s == r@.start,
{
    *r.start()
}

/// `RangeInclusive::end`: the upper bound the range was made with.
#[verifier::external_body]
fn range_end(r: &RangeInclusive<i32>) -> (e: i32)
    ensures
        e == r@.end,
{
    *r.end()
}

/// `RangeInclusive::clone`: a range with the same bounds and state.
#[verifier::external_body]
fn range_clone(r: &RangeInclusive<i32>) -> (c: RangeInclusive<i32>)
    ensures
        c@ == r@,
{
    r.clone()
}

/// `RangeInclusive == RangeInclusive`: equal bounds and equal state.
#[verifier::external_body]
fn range_eq(a: &RangeInclusive<i32>, b: &RangeInclusive<i32>) -> (r: bool)
    ensures
        r == (a@ == b@),
{
    a == b
}

/// Which tasks of a challenge are selected.
#[derive(Debug, PartialEq)]
pub enum TaskPattern {
    /// The first `n` tasks.
    Exact(usize),
    /// The tasks at the positions of the range (clamped to the tasks present).
    Range(RangeInclusive<i32>),
    /// `n` distinct tasks drawn at random, from the range if one is given.
    Random(usize, Option<RangeInclusive<i32>>),
}

/// The mathematical value of a [`TaskPattern`].
pub enum TaskPatternModel {
    Exact(usize),
    Range(RangeInclusiveView<i32>),
    Random(usize, Option<RangeInclusiveView<i32>>),
}

impl View for TaskPattern {
    type V = TaskPatternModel;

    open spec fn view(&self) -> TaskPatternModel {
        match self {
            TaskPattern::Exact(n) => TaskPatternModel::Exact(*n),
            TaskPattern::Range(r) => TaskPatternModel::Range(r@),
            TaskPattern::Random(n, None) => TaskPatternModel::Random(*n, None),
            TaskPattern::Random(n, Some(r)) => TaskPatternModel::Random(*n, Some(r@)),
        }
    }
}

/// A fresh inclusive range from `start` to `end`.
pub open spec fn range_model(start: i32, end: i32) -> RangeInclusiveView<i32> {
    RangeInclusiveView { start, end, exhausted: false }
}

pub open spec fn dots() -> Seq<char> {
    seq!['.', '.']
}

pub open spec fn colon() -> Seq<char> {
    seq![':']
}

/// What parsing a range `a..b` (or a single number `a`) gives: its bounds, or
/// the error message. A missing or unreadable bound of `a..b` is open-ended.
pub open spec fn spec_parse_range(s: Seq<char>) -> Result<(i32, i32), Seq<char>> {
    let parts = split_on(s, dots());
    if parts.len() == 1 {
        match spec_parse_i32(parts[0]) {
            Some(n) => Ok((n, n)),
            None => Err("Invalid range"@),
        }
    } else if parts.len() == 2 {
        let start = match spec_parse_i32(parts[0]) {
            Some(v) => v,
            None => i32::MIN,
        };
        let end = match spec_parse_i32(parts[1]) {
            Some(v) => v,
            None => i32::MAX,
        };
        if start > end {
            Err("Invalid range"@)
        } else {
            Ok((start, end))
        }
    } else {
        Err("Invalid range format"@)
    }
}

/// What parsing a pattern gives: a number is `Exact`; `n:random` and `n:a..b`
/// are `Random`; anything else is read as a range.
pub open spec fn spec_parse_task_pattern(s: Seq<char>) -> Result<TaskPatternModel, Seq<char>> {
    match spec_parse_usize(s) {
        Some(n) => Ok(TaskPatternModel::Exact(n)),
        None => if first_occurrence(s, colon(), 0) >= 0 {
            let parts = split_on(s, colon());
            if parts.len() != 2 {
                Err("Invalid random pattern"@)
            } else {
                match spec_parse_usize(parts[0]) {
                    None => Err("Invalid number of tasks"@),
                    Some(n) => if parts[1] == "random"@ {
                        Ok(TaskPatternModel::Random(n, None))
                    } else {
                        match spec_parse_range(parts[1]) {
                            Ok((a, b)) => Ok(TaskPatternModel::Random(n, Some(range_model(a, b)))),
                            Err(e) => Err(e),
                        }
                    },
                }
            }
        } else {
            match spec_parse_range(s) {
                Ok((a, b)) => Ok(TaskPatternModel::Range(range_model(a, b))),
                Err(e) => Err(e),
            }
        },
    }
}

fn parse_range_chars(w: &Vec<char>) -> (r: Result<RangeInclusive<i32>, String>)
    ensures
        match (r, spec_parse_range(w@)) {
            (Ok(rg), Ok((a, b))) => rg@ == range_model(a, b),
            (Err(e), Err(m)) => e@ == m,
            _ => false,
        },
{
    let dots_v = vec!['.', '.'];
    assert(dots_v@ =~= dots());
    proof {
        lemma_split_shape(w@, dots());
    }
    match find_from(w, &dots_v, 0) {
        None => {
            match parse_i32_in(w, 0, w.len()) {
                Some(n) => {
                    assert(w@.subrange(0, w@.len() as int) =~= w@);
                    Ok(RangeInclusive::new(n, n))
                },
                None => {
                    assert(w@.subrange(0, w@.len() as int) =~= w@);
                    Err("Invalid range".to_string())
                },
            }
        },
        Some(i) => {
            proof {
                lemma_first_occurrence_bounds(w@, dots(), 0);
                assert(occurs_at(w@, dots(), i as int));
                assert(dots().len() == 2);
                assert(i + 2 <= w.len());
            }
            match find_from(w, &dots_v, i + 2) {
                Some(_) => Err("Invalid range format".to_string()),
                None => {
                    assert(w@.subrange(0, i as int) =~= w@.take(i as int));
                    assert(w@.subrange(i + 2, w@.len() as int) =~= w@.skip(i + 2));
                    let start = match parse_i32_in(w, 0, i) {
                        Some(v) => v,
                        None => i32::MIN,
                    };
                    let end = match parse_i32_in(w, i + 2, w.len()) {
                        Some(v) => v,
                        None => i32::MAX,
                    };
                    if start > end {
                        Err("Invalid range".to_string())
                    } else {
                        Ok(RangeInclusive::new(start, end))
                    }
                },
            }
        },
    }
}

} // verus!

verus! {

/// The greater of a range's lower bound and 0.
pub open spec fn clamped_start(r: RangeInclusiveView<i32>) -> int {
    if r.start < 0 { 0 } else { r.start as int }
}

/// The lesser of a range's upper bound and `len as i32 - 1`.
pub open spec fn clamped_end(r: RangeInclusiveView<i32>, len: usize) -> int {
    let last = (len as i32) as int - 1;
    if r.end < last { r.end as int } else { last }
}

/// Selecting the clamped positions of `r` from `len` items does not panic:
/// `len as i32 - 1` does not overflow and the slice bounds are valid.
pub open spec fn range_selectable(r: RangeInclusiveView<i32>, len: usize) -> bool {
    &&& (len as i32) != i32::MIN
    &&& 0 <= clamped_end(r, len) < len
    &&& clamped_start(r) <= clamped_end(r, len) + 1
}

/// The positions `Random` draws from: the clamped range, or all of them.
pub open spec fn random_bounds(r: Option<RangeInclusiveView<i32>>, len: usize) -> (int, int) {
    match r {
        Some(r) => (clamped_start(r), clamped_end(r, len)),
        None => (0, len - 1),
    }
}

/// `select_items` does not panic on `len` items.
pub open spec fn selectable(p: TaskPatternModel, len: usize) -> bool {
    match p {
        TaskPatternModel::Exact(_) => true,
        TaskPatternModel::Range(r) => range_selectable(r, len),
        TaskPatternModel::Random(_, Some(r)) => range_selectable(r, len),
        TaskPatternModel::Random(_, None) => len >= 1,
    }
}

pub open spec fn min_nat(a: int, b: int) -> int {
    if a < b { a } else { b }
}

/// `usize` value that `x as usize` gives for an `i32`.
pub open spec fn i32_as_usize(x: i32) -> int {
    if x >= 0 { x as int } else { usize::MAX as int + 1 + x }
}

/// The number of tasks the pattern stands for.
pub open spec fn spec_task_count(p: TaskPatternModel) -> int {
    match p {
        TaskPatternModel::Exact(n) => n as int,
        TaskPatternModel::Range(r) => {
            let start = clamped_start(r);
            let end = i32_as_usize(r.end);
            (if end >= start { end - start } else { 0 }) + 1
        },
        TaskPatternModel::Random(n, _) => n as int,
    }
}

/// `len` does not overflow: a range ending at -1 (so at `usize::MAX` as a
/// position) and starting at or below 0 would count `usize::MAX + 1` tasks.
pub open spec fn task_count_fits(p: TaskPatternModel) -> bool {
    spec_task_count(p) <= usize::MAX
}

/// `r` is made of entries of `positions` taken from pairwise different
/// places `js` of it.
pub open spec fn drawn_without_repetition(r: Seq<usize>, positions: Seq<usize>, js: Seq<int>) -> bool {
    &&& js.len() == r.len()
    &&& forall|k: int| 0 <= k < js.len() ==> 0 <= #[trigger] js[k] < positions.len()
    &&& forall|k1: int, k2: int| 0 <= k1 < js.len() && 0 <= k2 < js.len() && k1 != k2 ==> js[k1] != js[k2]
    &&& forall|k: int| 0 <= k < js.len() ==> r[k] == positions[#[trigger] js[k]]
}

/// `choose_multiple` of `rand`'s `SliceRandom` on a slice of positions:
/// `min(amount, positions.len())` of them, each taken from a different place
/// of the slice, in an order that chance decides.
#[verifier::external_body]
fn choose_multiple_positions(positions: &[usize], amount: usize) -> (r: Vec<usize>)
    ensures
        r@.len() == min_nat(amount as int, positions@.len() as int),
        exists|js: Seq<int>| drawn_without_repetition(r@, positions@, js),
{
    positions.choose_multiple(&mut rand::thread_rng(), amount).cloned().collect()
}

impl Clone for TaskPattern {
    fn clone(&self) -> (r: Self)
        ensures
            r@ == self@,
    {
        match self {
            TaskPattern::Exact(n) => TaskPattern::Exact(*n),
            TaskPattern::Range(rg) => TaskPattern::Range(range_clone(rg)),
            TaskPattern::Random(n, None) => TaskPattern::Random(*n, None),
            TaskPattern::Random(n, Some(rg)) => TaskPattern::Random(*n, Some(range_clone(rg))),
        }
    }
}

impl TaskPattern {
    /// Whether two patterns are equal (`==`).
    pub fn equals(&self, other: &TaskPattern) -> (r: bool)
        ensures
            r == (self@ == other@),
    {
        match (self, other) {
            (TaskPattern::Exact(a), TaskPattern::Exact(b)) => *a == *b,
            (TaskPattern::Range(a), TaskPattern::Range(b)) => range_eq(a, b),
            (TaskPattern::Random(a, None), TaskPattern::Random(b, None)) => *a == *b,
            (TaskPattern::Random(a, Some(x)), TaskPattern::Random(b, Some(y))) => *a == *b && range_eq(x, y),
            _ => false,
        }
    }

    /// Reads a pattern: a number (`"10"`), a range (`"1..10"`, `"..10"`,
    /// `"10.."`), or a random draw (`"5:random"`, `"5:1..10"`).
    pub fn parse(s: &str) -> (r: Result<TaskPattern, String>)
        ensures
            match (r, spec_parse_task_pattern(s@)) {
                (Ok(p), Ok(m)) => p@ == m,
                (Err(e), Err(m)) => e@ == m,
                _ => false,
            },
    {
        let v = chars_of(s);
        assert(v@.subrange(0, v@.len() as int) =~= v@);
        if let Some(n) = parse_usize_in(&v, 0, v.len()) {
            return Ok(TaskPattern::Exact(n));
        }
        let colon_v = vec![':'];
        assert(colon_v@ =~= colon());
        proof {
            lemma_split_shape(v@, colon());
        }
        match find_from(&v, &colon_v, 0) {
            None => {
                match parse_range_chars(&v) {
                    Ok(rg) => Ok(TaskPattern::Range(rg)),
                    Err(e) => Err(e),
                }
            },
            Some(i) => {
                proof {
                    lemma_first_occurrence_bounds(v@, colon(), 0);
                }
                if find_from(&v, &colon_v, i + 1).is_some() {
                    return Err("Invalid random pattern".to_string());
                }
                assert(v@.subrange(0, i as int) =~= v@.take(i as int));
                assert(v@.subrange(i + 1, v@.len() as int) =~= v@.skip(i + 1));
                let n = match parse_usize_in(&v, 0, i) {
                    Some(n) => n,
                    None => {
                        return Err("Invalid number of tasks".to_string());
                    },
                };
                let random = chars_of("random");
                if chars_equal(&v, i + 1, v.len(), &random) {
                    return Ok(TaskPattern::Random(n, None));
                }
                let rest = sub_chars(&v, i + 1, v.len());
                match parse_range_chars(&rest) {
                    Ok(rg) => Ok(TaskPattern::Random(n, Some(rg))),
                    Err(e) => Err(e),
                }
            },
        }
    }

    /// Reads a range `a..b`, `..b`, `a..` or a single position `a`.
    pub fn parse_range(s: &str) -> (r: Result<RangeInclusive<i32>, String>)
        ensures
            match (r, spec_parse_range(s@)) {
                (Ok(rg), Ok((a, b))) => rg@ == range_model(a, b),
                (Err(e), Err(m)) => e@ == m,
                _ => false,
            },
    {
        let v = chars_of(s);
        parse_range_chars(&v)
    }

    /// The number of tasks the pattern stands for: `n` for `Exact` and
    /// `Random`, and for a range the count of positions from its lower bound
    /// (at least 0) to its upper bound read as a `usize`.
    pub fn len(&self) -> (r: usize)
        requires
            task_count_fits(self@),
        ensures
            r == spec_task_count(self@),
    {
        match self {
            TaskPattern::Exact(n) => *n,
            TaskPattern::Range(range) => {
                let s = range_start(range);
                let start: usize = if s > 0 { s as usize } else { 0 };
                let e = range_end(range);
                let end: usize = if e >= 0 { e as usize } else { usize::MAX - ((-(e as i64) - 1) as usize) };
                let diff = if end >= start { end - start } else { 0 };
                diff + 1
            },
            TaskPattern::Random(n, _) => *n,
        }
    }

    /// The items the pattern selects from `items`, each a clone of the one
    /// it stands for: the first `n`; the clamped range; or `n` (at most as
    /// many as there are) distinct items of the clamped range, in a random order.
    pub fn select_items<T: Clone>(&self, items: &[T]) -> (r: Vec<T>)
        requires
            selectable(self@, items@.len() as usize),
        ensures
            match self@ {
                TaskPatternModel::Exact(n) => {
                    &&& r@.len() == min_nat(n as int, items@.len() as int)
                    &&& forall|i: int| 0 <= i < r@.len() ==> cloned(items@[i], #[trigger] r@[i])
                },
                TaskPatternModel::Range(rg) => {
                    let s = clamped_start(rg);
                    let e = clamped_end(rg, items@.len() as usize);
                    &&& r@.len() == e + 1 - s
                    &&& forall|i: int| 0 <= i < r@.len() ==> cloned(items@[s + i], #[trigger] r@[i])
                },
                TaskPatternModel::Random(n, rg) => {
                    let (s, e) = random_bounds(rg, items@.len() as usize);
                    &&& r@.len() == min_nat(n as int, e + 1 - s)
                    &&& exists|idx: Seq<int>|
                        #![trigger idx.len()]
                        idx.len() == r@.len()
                        && (forall|k: int| 0 <= k < idx.len() ==> s <= #[trigger] idx[k] <= e)
                        && (forall|k1: int, k2: int| 0 <= k1 < idx.len() && 0 <= k2 < idx.len() && k1 != k2 ==> idx[k1] != idx[k2])
                        && (forall|k: int| 0 <= k < idx.len() ==> cloned(items@[#[trigger] idx[k]], r@[k]))
                },
            },
    {
        match self {
            TaskPattern::Exact(n) => {
                let count = if *n < items.len() { *n } else { items.len() };
                clone_run(items, 0, count)
            },
            TaskPattern::Range(range) => {
                let (s, e) = clamp_bounds(range, items.len());
                clone_run(items, s, e + 1)
            },
            TaskPattern::Random(n, range_opt) => {
                let (s, e) = match range_opt {
                    Some(range) => clamp_bounds(range, items.len()),
                    None => (0, items.len() - 1),
                };
                let len = items.len();
                let mut positions: Vec<usize> = Vec::new();
                let mut p = s;
                while p <= e
                    invariant
                        s <= p <= e + 1,
                        e < len,
                        len == items@.len(),
                        positions@.len() == p - s,
                        forall|k: int| 0 <= k < positions@.len() ==> positions@[k] == s + k,
                    decreases e + 1 - p,
                {
                    positions.push(p);
                    p = p + 1;
                }
                let chosen = choose_multiple_positions(positions.as_slice(), *n);
                let mut r: Vec<T> = Vec::new();
                let mut k: usize = 0;
                let ghost js = choose|js: Seq<int>| drawn_without_repetition(chosen@, positions@, js);
                let ghost idx = Seq::new(js.len(), |k: int| s + js[k]);
                while k < chosen.len()
                    invariant
                        k <= chosen@.len(),
                        r@.len() == k,
                        e < items@.len(),
                        idx.len() == chosen@.len(),
                        forall|j: int| 0 <= j < chosen@.len() ==> #[trigger] chosen@[j] == idx[j],
                        forall|j: int| 0 <= j < idx.len() ==> s <= #[trigger] idx[j] <= e,
                        forall|j: int| 0 <= j < k ==> cloned(items@[#[trigger] idx[j]], r@[j]),
                    decreases chosen@.len() - k,
                {
                    let item = items[chosen[k]].clone();
                    r.push(item);
                    k = k + 1;
                }
                assert(idx.len() == r@.len());
                r
            },
        }
    }
}

/// `r` is a selection by `p` from `items`: their first `n`; their clamped
/// range; or `n` (at most as many as there are) of the clamped range, taken
/// from pairwise different places.
pub open spec fn selection<V>(p: TaskPatternModel, items: Seq<V>, r: Seq<V>) -> bool {
    match p {
        TaskPatternModel::Exact(n) => r == items.take(min_nat(n as int, items.len() as int)),
        TaskPatternModel::Range(rg) => r == items.subrange(
            clamped_start(rg),
            clamped_end(rg, items.len() as usize) + 1,
        ),
        TaskPatternModel::Random(n, rg) => {
            let (s, e) = random_bounds(rg, items.len() as usize);
            &&& r.len() == min_nat(n as int, e + 1 - s)
            &&& exists|idx: Seq<int>|
                #![trigger idx.len()]
                idx.len() == r.len()
                && (forall|k: int| 0 <= k < idx.len() ==> s <= #[trigger] idx[k] <= e)
                && (forall|k1: int, k2: int| 0 <= k1 < idx.len() && 0 <= k2 < idx.len() && k1 != k2 ==> idx[k1] != idx[k2])
                && (forall|k: int| 0 <= k < idx.len() ==> r[k] == items[#[trigger] idx[k]])
        },
    }
}

/// Whether selecting the clamped positions of `range` from `len` items
/// does not panic.
fn range_selectable_check(range: &RangeInclusive<i32>, len: usize) -> (r: bool)
    ensures
        r == range_selectable(range@, len),
{
    #[verifier::truncate]
    let l: i32 = len as i32;
    if l == i32::MIN {
        return false;
    }
    let last: i32 = l - 1;
    let s = range_start(range);
    let e = range_end(range);
    let start: i64 = if s < 0 { 0 } else { s as i64 };
    let end: i64 = if e < last { e as i64 } else { last as i64 };
    0 <= end && (end as u128) < (len as u128) && start <= end + 1
}

impl TaskPattern {
    /// Whether `select_items` can select from `len` items without panicking.
    pub fn is_selectable(&self, len: usize) -> (r: bool)
        ensures
            r == selectable(self@, len),
    {
        match self {
            TaskPattern::Exact(_) => true,
            TaskPattern::Range(range) => range_selectable_check(range, len),
            TaskPattern::Random(_, Some(range)) => range_selectable_check(range, len),
            TaskPattern::Random(_, None) => len >= 1,
        }
    }

    /// Whether `len` can count the tasks without overflow: all but a range
    /// from at most 0 up to -1.
    pub fn count_fits(&self) -> (r: bool)
        ensures
            r == task_count_fits(self@),
    {
        match self {
            TaskPattern::Range(range) => !(range_start(range) <= 0 && range_end(range) == -1),
            _ => true,
        }
    }
}

/// The clamped bounds of a range over `len` items, as positions.
fn clamp_bounds(range: &RangeInclusive<i32>, len: usize) -> (r: (usize, usize))
    requires
        range_selectable(range@, len),
    ensures
        r.0 == clamped_start(range@),
        r.1 == clamped_end(range@, len),
{
    let s = range_start(range);
    let start: usize = if s > 0 { s as usize } else { 0 };
    #[verifier::truncate]
    let last: i32 = (len as i32) - 1;
    let e = range_end(range);
    let end32 = if e < last { e } else { last };
    (start, end32 as usize)
}

/// Clones of `items[lo..hi]`.
fn clone_run<T: Clone>(items: &[T], lo: usize, hi: usize) -> (r: Vec<T>)
    requires
        lo <= hi <= items@.len(),
    ensures
        r@.len() == hi - lo,
        forall|i: int| 0 <= i < r@.len() ==> cloned(items@[lo + i], #[trigger] r@[i]),
{
    let mut r: Vec<T> = Vec::new();
    let mut i = lo;
    while i < hi
        invariant
            lo <= i <= hi <= items@.len(),
            r@.len() == i - lo,
            forall|k: int| 0 <= k < r@.len() ==> cloned(items@[lo + k], #[trigger] r@[k]),
        decreases hi - i,
    {
        r.push(items[i].clone());
        i = i + 1;
    }
    r
}

} // verus!

verus! {

/// How a range is shown: `..=b` when it has no lower bound, `a..=` when it
/// has no upper bound, `a..=b` otherwise.
pub open spec fn range_display(r: RangeInclusiveView<i32>) -> Seq<char> {
    if r.start == i32::MIN {
        "..="@ + signed_decimal(r.end as int)
    } else if r.end == i32::MAX {
        signed_decimal(r.start as int) + "..="@
    } else {
        signed_decimal(r.start as int) + "..="@ + signed_decimal(r.end as int)
    }
}

/// The text a pattern is shown as.
pub open spec fn spec_display(p: TaskPatternModel) -> Seq<char> {
    match p {
        TaskPatternModel::Exact(n) => decimal(n as nat),
        TaskPatternModel::Range(r) => range_display(r),
        TaskPatternModel::Random(n, Some(r)) => decimal(n as nat) + ":"@ + range_display(r),
        TaskPatternModel::Random(n, None) => decimal(n as nat) + ":random"@,
    }
}

/// The text a pattern is stored as: `n`, `a..b`, `n:a..b` or `n:random`.
pub open spec fn spec_pattern_text(p: TaskPatternModel) -> Seq<char> {
    match p {
        TaskPatternModel::Exact(n) => decimal(n as nat),
        TaskPatternModel::Range(r) => signed_decimal(r.start as int) + dots() + signed_decimal(r.end as int),
        TaskPatternModel::Random(n, Some(r)) => decimal(n as nat) + colon() + signed_decimal(r.start as int)
            + dots() + signed_decimal(r.end as int),
        TaskPatternModel::Random(n, None) => decimal(n as nat) + colon() + "random"@,
    }
}

fn append_range_display(out: &mut String, r: &RangeInclusive<i32>)
    ensures
        final(out)@ == old(out)@ + range_display(r@),
{
    let s = range_start(r);
    let e = range_end(r);
    if s == i32::MIN {
        out.append("..=");
        let t = i32_to_text(e);
        out.append(t.as_str());
    } else if e == i32::MAX {
        let t = i32_to_text(s);
        out.append(t.as_str());
        out.append("..=");
    } else {
        let t = i32_to_text(s);
        out.append(t.as_str());
        out.append("..=");
        let t2 = i32_to_text(e);
        out.append(t2.as_str());
    }
    assert(final(out)@ =~= old(out)@ + range_display(r@));
}

impl TaskPattern {
    /// The text the pattern is shown as (`Display`).
    pub fn to_string(&self) -> (r: String)
        ensures
            r@ == spec_display(self@),
    {
        match self {
            TaskPattern::Exact(n) => usize_to_text(*n),
            TaskPattern::Range(rg) => {
                let mut out = String::new();
                append_range_display(&mut out, rg);
                assert(out@ =~= spec_display(self@));
                out
            },
            TaskPattern::Random(n, Some(rg)) => {
                let mut out = usize_to_text(*n);
                out.append(":");
                append_range_display(&mut out, rg);
                assert(out@ =~= spec_display(self@));
                out
            },
            TaskPattern::Random(n, None) => {
                let mut out = usize_to_text(*n);
                out.append(":random");
                out
            },
        }
    }

    /// The text the pattern is stored as, which [`TaskPattern::parse`] reads back.
    pub fn to_pattern_string(&self) -> (r: String)
        ensures
            r@ == spec_pattern_text(self@),
    {
        let mut out: String;
        match self {
            TaskPattern::Exact(n) => {
                out = usize_to_text(*n);
            },
            TaskPattern::Range(rg) => {
                out = i32_to_text(range_start(rg));
                out.append("..");
                let t = i32_to_text(range_end(rg));
                out.append(t.as_str());
            },
            TaskPattern::Random(n, Some(rg)) => {
                out = usize_to_text(*n);
                out.append(":");
                let t = i32_to_text(range_start(rg));
                out.append(t.as_str());
                out.append("..");
                let t2 = i32_to_text(range_end(rg));
                out.append(t2.as_str());
            },
            TaskPattern::Random(n, None) => {
                out = usize_to_text(*n);
                out.append(":random");
            },
        }
        proof {
            reveal_strlit("..");
            reveal_strlit(":");
            reveal_strlit(":random");
            reveal_strlit("random");
        }
        assert(out@ =~= spec_pattern_text(self@));
        out
    }
}

} // verus!

verus! {

/// The pattern a text converts to: what it parses as, or `Exact(0)` when it
/// does not parse.
pub open spec fn spec_pattern_from_text(s: Seq<char>) -> TaskPatternModel {
    match spec_parse_task_pattern(s) {
        Ok(m) => m,
        Err(_) => TaskPatternModel::Exact(0),
    }
}

impl From<usize> for TaskPattern {
    fn from(value: usize) -> (r: TaskPattern)
        ensures
            r@ == TaskPatternModel::Exact(value),
    {
        TaskPattern::Exact(value)
    }
}

impl vstd::std_specs::convert::FromSpecImpl<usize> for TaskPattern {
    open spec fn obeys_from_spec() -> bool {
        true
    }

    open spec fn from_spec(v: usize) -> TaskPattern {
        TaskPattern::Exact(v)
    }
}

impl From<String> for TaskPattern {
    fn from(s: String) -> (r: TaskPattern)
        ensures
            r@ == spec_pattern_from_text(s@),
    {
        match TaskPattern::parse(s.as_str()) {
            Ok(p) => p,
            Err(_) => TaskPattern::Exact(0),
        }
    }
}

impl vstd::std_specs::convert::FromSpecImpl<String> for TaskPattern {
    /// A pattern holds a `RangeInclusive`, which the specification knows only
    /// by its view; the conversion is stated over views in `from`'s own `ensures`.
    open spec fn obeys_from_spec() -> bool {
        false
    }

    open spec fn from_spec(v: String) -> TaskPattern {
        TaskPattern::Exact(0)
    }
}

impl<'a> From<&'a str> for TaskPattern {
    fn from(s: &'a str) -> (r: TaskPattern)
        ensures
            r@ == spec_pattern_from_text(s@),
    {
        match TaskPattern::parse(s) {
            Ok(p) => p,
            Err(_) => TaskPattern::Exact(0),
        }
    }
}

impl<'a> vstd::std_specs::convert::FromSpecImpl<&'a str> for TaskPattern {
    /// As for `String`: stated over views in `from`'s own `ensures`.
    open spec fn obeys_from_spec() -> bool {
        false
    }

    open spec fn from_spec(v: &'a str) -> TaskPattern {
        TaskPattern::Exact(0)
    }
}

} // verus!

verus! {

/// The stored text of a range `a..=b` reads back as that range.
proof fn lemma_range_text_parses(a: i32, b: i32)
    requires
        a <= b,
    ensures
        spec_parse_range(signed_decimal(a as int) + dots() + signed_decimal(b as int)) == Ok::<(i32, i32), Seq<char>>((a, b)),
        first_occurrence(signed_decimal(a as int) + dots() + signed_decimal(b as int), colon(), 0) < 0,
        spec_parse_usize(signed_decimal(a as int) + dots() + signed_decimal(b as int)) is None,
        ({
            let t = signed_decimal(a as int) + dots() + signed_decimal(b as int);
            t.len() > 0 && (is_digit(t[0]) || t[0] == '-') && forall|i: int| 0 <= i < t.len() ==> t[i] != ':'
        }),
{
    let sa = signed_decimal(a as int);
    let sb = signed_decimal(b as int);
    let t = sa + dots() + sb;
    lemma_signed_decimal_chars(a as int);
    lemma_signed_decimal_chars(b as int);
    lemma_parse_i32_decimal(a);
    lemma_parse_i32_decimal(b);
    assert(t.subrange(sa.len() as int, sa.len() as int + 2) =~= dots());
    assert forall|i: int| 0 <= i < sa.len() implies t[i] != dots()[0] by {
        assert(t[i] == sa[i]);
        assert(is_digit(sa[i]) || sa[i] == '-');
    }
    lemma_first_occurrence_is(t, dots(), 0, sa.len() as int);
    assert forall|i: int| sa.len() + 2 <= i < t.len() implies t[i] != dots()[0] by {
        assert(t[i] == sb[i - sa.len() - 2]);
        assert(is_digit(sb[i - sa.len() - 2]) || sb[i - sa.len() - 2] == '-');
    }
    lemma_no_occurrence_from(t, dots(), sa.len() as int + 2);
    lemma_split_shape(t, dots());
    assert(t.take(sa.len() as int) =~= sa);
    assert(t.skip(sa.len() as int + 2) =~= sb);
    assert forall|i: int| 0 <= i < t.len() implies t[i] != ':' by {
        if i < sa.len() {
            assert(t[i] == sa[i]);
            assert(is_digit(sa[i]) || sa[i] == '-');
        } else if i >= sa.len() + 2 {
            assert(t[i] == sb[i - sa.len() - 2]);
            assert(is_digit(sb[i - sa.len() - 2]) || sb[i - sa.len() - 2] == '-');
        }
    }
    lemma_no_occurrence_from(t, colon(), 0);
    assert(t[0] == sa[0]);
    assert(!is_digit(t[sa.len() as int]));
}

/// A pattern as it is stored: its ranges run upward and have not been iterated.
pub open spec fn stored_form(p: TaskPatternModel) -> bool {
    match p {
        TaskPatternModel::Exact(_) => true,
        TaskPatternModel::Range(r) => r.start <= r.end && !r.exhausted,
        TaskPatternModel::Random(_, Some(r)) => r.start <= r.end && !r.exhausted,
        TaskPatternModel::Random(_, None) => true,
    }
}

/// Reading back the stored text of a pattern gives the pattern again.
pub proof fn lemma_pattern_text_parses_back(p: TaskPatternModel)
    requires
        stored_form(p),
    ensures
        spec_parse_task_pattern(spec_pattern_text(p)) == Ok::<TaskPatternModel, Seq<char>>(p),
{
    match p {
        TaskPatternModel::Exact(n) => {
            lemma_parse_usize_decimal(n);
        },
        TaskPatternModel::Range(r) => {
            lemma_range_text_parses(r.start, r.end);
        },
        TaskPatternModel::Random(n, opt) => {
            let d = decimal(n as nat);
            let rest = match opt {
                Some(r) => signed_decimal(r.start as int) + dots() + signed_decimal(r.end as int),
                None => "random"@,
            };
            reveal_strlit("random");
            reveal_strlit(":random");
            let t = d + colon() + rest;
            assert(spec_pattern_text(p) =~= t);
            lemma_decimal_chars(n as nat);
            lemma_parse_usize_decimal(n);
            match opt {
                Some(r) => {
                    lemma_range_text_parses(r.start, r.end);
                },
                None => {},
            }
            assert(forall|i: int| 0 <= i < rest.len() ==> rest[i] != ':');
            assert(t.subrange(d.len() as int, d.len() as int + 1) =~= colon());
            assert forall|i: int| 0 <= i < d.len() implies t[i] != colon()[0] by {
                assert(t[i] == d[i]);
                assert(is_digit(d[i]));
            }
            lemma_first_occurrence_is(t, colon(), 0, d.len() as int);
            assert forall|i: int| d.len() + 1 <= i < t.len() implies t[i] != colon()[0] by {
                assert(t[i] == rest[i - d.len() - 1]);
            }
            lemma_no_occurrence_from(t, colon(), d.len() as int + 1);
            lemma_split_shape(t, colon());
            assert(t.take(d.len() as int) =~= d);
            assert(t.skip(d.len() as int + 1) =~= rest);
            assert(is_digit(t[0]));
            assert(!is_digit(t[d.len() as int]));
            if opt is Some {
                assert(rest[0] != "random"@[0]);
            }
        },
    }
}

} // verus!

verus! {

impl DeepView for TaskPattern {
    type V = TaskPatternModel;

    open spec fn deep_view(&self) -> TaskPatternModel {
        self@
    }
}

impl crate::equality::Equals for TaskPattern {
    fn equals(&self, other: &Self) -> (r: bool) {
        TaskPattern::equals(self, other)
    }
}

} // verus!
