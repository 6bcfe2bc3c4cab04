//! Character-level helpers: reading a string as characters, decimal numbers,
//! and splitting on a separator, each with its mathematical meaning.

use vstd::prelude::*;
use vstd::string::*;

verus! {

/// The characters of `s`, in order.
pub fn chars_of(s: &str) -> (v: Vec<char>)
    ensures
        v@ == s@,
{
    let mut v: Vec<char> = Vec::new();
    for c in it: s.chars()
        invariant
            v@ == it.seq().take(it.index()),
    {
        v.push(c);
    }
    v
}

} // verus!

verus! {

/// `c` is one of the ASCII digits `0`..=`9`.
pub open spec fn is_digit(c: char) -> bool {
    '0' <= c && c <= '9'
}

/// Every character of `s` is an ASCII digit.
pub open spec fn all_digits(s: Seq<char>) -> bool {
    forall|i: int| 0 <= i < s.len() ==> #[trigger] is_digit(s[i])
}

/// The number that the decimal digits `s` denote (most significant first).
pub open spec fn digits_value(s: Seq<char>) -> nat
    decreases s.len(),
{
    if s.len() == 0 {
        0
    } else {
        digits_value(s.drop_last()) * 10 + ((s.last() as int - '0' as int) as nat)
    }
}

/// A run of digits, with an optional leading `+`, denotes this natural number.
pub open spec fn spec_parse_unsigned(s: Seq<char>) -> Option<nat> {
    let d = if s.len() > 0 && s[0] == '+' { s.drop_first() } else { s };
    if d.len() > 0 && all_digits(d) {
        Some(digits_value(d))
    } else {
        None
    }
}

/// What `str::parse::<usize>` gives: `Some` of the value when `s` is an
/// optional `+` followed by at least one digit and the value fits in `usize`.
pub open spec fn spec_parse_usize(s: Seq<char>) -> Option<usize> {
    match spec_parse_unsigned(s) {
        Some(v) => if v <= usize::MAX { Some(v as usize) } else { None },
        None => None,
    }
}

/// What `str::parse::<i32>` gives: an optional sign (`+` or `-`) followed by at
/// least one digit, with the signed value in the range of `i32`.
pub open spec fn spec_parse_i32(s: Seq<char>) -> Option<i32> {
    if s.len() > 0 && s[0] == '-' {
        let d = s.drop_first();
        if d.len() > 0 && all_digits(d) && digits_value(d) <= 0x8000_0000 {
            Some((-digits_value(d)) as i32)
        } else {
            None
        }
    } else {
        match spec_parse_unsigned(s) {
            Some(v) => if v <= i32::MAX { Some(v as i32) } else { None },
            None => None,
        }
    }
}

proof fn lemma_digits_value_push(s: Seq<char>, c: char)
    ensures
        digits_value(s.push(c)) == digits_value(s) * 10 + ((c as int - '0' as int) as nat),
{
    assert(s.push(c).drop_last() =~= s);
}

/// Appending digits never makes the value smaller.
proof fn lemma_digits_value_prefix(s: Seq<char>, i: int)
    requires
        0 <= i <= s.len(),
        all_digits(s),
    ensures
        digits_value(s.take(i)) <= digits_value(s),
    decreases s.len() - i,
{
    if i < s.len() {
        lemma_digits_value_prefix(s, i + 1);
        assert(s.take(i + 1) =~= s.take(i).push(s[i]));
        lemma_digits_value_push(s.take(i), s[i]);
        assert(is_digit(s[i]));
    } else {
        assert(s.take(i) =~= s);
    }
}

/// Reads the digits `v[lo..hi]`; `Some(value)` exactly when the range is
/// non-empty, holds only digits and its value is at most `limit`.
pub fn parse_digits(v: &Vec<char>, lo: usize, hi: usize, limit: u64) -> (r: Option<u64>)
    requires
        lo <= hi <= v.len(),
    ensures
        ({
            let d = v@.subrange(lo as int, hi as int);
            match r {
                Some(x) => d.len() > 0 && all_digits(d) && digits_value(d) <= limit && x == digits_value(d),
                None => !(d.len() > 0 && all_digits(d) && digits_value(d) <= limit),
            }
        }),
{
    let ghost d = v@.subrange(lo as int, hi as int);
    if lo == hi {
        return None;
    }
    let mut i = lo;
    while i < hi
        invariant
            lo <= i <= hi <= v.len(),
            d == v@.subrange(lo as int, hi as int),
            forall|k: int| 0 <= k < i - lo ==> #[trigger] is_digit(d[k]),
        decreases hi - i,
    {
        let c = v[i];
        if !('0' <= c && c <= '9') {
            assert(!is_digit(d[i - lo]));
            return None;
        }
        i = i + 1;
    }
    assert(all_digits(d));
    let mut acc: u64 = 0;
    let mut j = lo;
    while j < hi
        invariant
            lo <= j <= hi <= v.len(),
            d == v@.subrange(lo as int, hi as int),
            all_digits(d),
            acc == digits_value(d.take(j - lo)),
            acc <= limit,
        decreases hi - j,
    {
        let c = v[j];
        assert(is_digit(d[j - lo]));
        let dig: u64 = (c as u32 - '0' as u32) as u64;
        proof {
            assert(d.take(j - lo + 1) =~= d.take(j - lo).push(d[j - lo]));
            lemma_digits_value_push(d.take(j - lo), d[j - lo]);
        }
        if dig > limit || acc > (limit - dig) / 10 {
            proof {
                if dig <= limit {
                    assert(acc * 10 + dig > limit) by (nonlinear_arith)
                        requires acc > (limit - dig) / 10, dig <= limit;
                }
                lemma_digits_value_prefix(d, j - lo + 1);
            }
            return None;
        }
        assert(acc * 10 + dig <= limit) by (nonlinear_arith)
            requires acc <= (limit - dig) / 10, dig <= limit;
        acc = acc * 10 + dig;
        j = j + 1;
    }
    assert(d.take(hi - lo) =~= d);
    Some(acc)
}

} // verus!

verus! {

/// `usize::from_str` on the characters `v[lo..hi]`.
pub fn parse_usize_in(v: &Vec<char>, lo: usize, hi: usize) -> (r: Option<usize>)
    requires
        lo <= hi <= v.len(),
    ensures
        r == spec_parse_usize(v@.subrange(lo as int, hi as int)),
{
    let ghost s = v@.subrange(lo as int, hi as int);
    let start = if lo < hi && v[lo] == '+' { lo + 1 } else { lo };
    proof {
        if lo < hi && v@[lo as int] == '+' {
            assert(s.drop_first() =~= v@.subrange(start as int, hi as int));
        } else {
            assert(s =~= v@.subrange(start as int, hi as int));
        }
    }
    match parse_digits(v, start, hi, usize::MAX as u64) {
        Some(x) => Some(x as usize),
        None => None,
    }
}

/// `i32::from_str` on the characters `v[lo..hi]`.
pub fn parse_i32_in(v: &Vec<char>, lo: usize, hi: usize) -> (r: Option<i32>)
    requires
        lo <= hi <= v.len(),
    ensures
        r == spec_parse_i32(v@.subrange(lo as int, hi as int)),
{
    let ghost s = v@.subrange(lo as int, hi as int);
    if lo < hi && v[lo] == '-' {
        assert(s.drop_first() =~= v@.subrange(lo + 1, hi as int));
        match parse_digits(v, lo + 1, hi, 0x8000_0000u64) {
            Some(x) => {
                let r: i64 = -(x as i64);
                Some(r as i32)
            },
            None => None,
        }
    } else {
        let start = if lo < hi && v[lo] == '+' { lo + 1 } else { lo };
        proof {
            if lo < hi && v@[lo as int] == '+' {
                assert(s.drop_first() =~= v@.subrange(start as int, hi as int));
            } else {
                assert(s =~= v@.subrange(start as int, hi as int));
            }
        }
        match parse_digits(v, start, hi, 0x7fff_ffffu64) {
            Some(x) => Some(x as i32),
            None => None,
        }
    }
}

/// `sep` occurs in `s` at position `i`.
pub open spec fn occurs_at(s: Seq<char>, sep: Seq<char>, i: int) -> bool {
    0 <= i && i + sep.len() <= s.len() && s.subrange(i, i + sep.len()) == sep
}

/// The first position at or after `from` where `sep` occurs in `s`, or -1.
pub open spec fn first_occurrence(s: Seq<char>, sep: Seq<char>, from: int) -> int
    decreases s.len() + 1 - from,
{
    if from < 0 || from + sep.len() > s.len() {
        -1
    } else if occurs_at(s, sep, from) {
        from
    } else {
        first_occurrence(s, sep, from + 1)
    }
}

/// The pieces of `s` between the occurrences of `sep`, found from the left
/// without overlap: what `str::split` yields for a non-empty separator.
pub open spec fn split_on(s: Seq<char>, sep: Seq<char>) -> Seq<Seq<char>>
    decreases s.len(),
{
    let i = first_occurrence(s, sep, 0);
    if sep.len() == 0 || i < 0 {
        seq![s]
    } else {
        proof {
            lemma_first_occurrence_bounds(s, sep, 0);
        }
        seq![s.take(i)] + split_on(s.skip(i + sep.len()), sep)
    }
}

pub proof fn lemma_first_occurrence_bounds(s: Seq<char>, sep: Seq<char>, from: int)
    requires
        0 <= from,
    ensures
        first_occurrence(s, sep, from) == -1 || (from <= first_occurrence(s, sep, from)
            && occurs_at(s, sep, first_occurrence(s, sep, from))),
        first_occurrence(s, sep, from) == -1 ==> forall|k: int| from <= k ==> !#[trigger] occurs_at(s, sep, k),
        forall|k: int| from <= k < first_occurrence(s, sep, from) ==> !#[trigger] occurs_at(s, sep, k),
    decreases s.len() + 1 - from,
{
    if from + sep.len() > s.len() {
    } else if occurs_at(s, sep, from) {
    } else {
        lemma_first_occurrence_bounds(s, sep, from + 1);
    }
}

/// The first occurrence of `sep` in `v` at or after `from`, or `None`.
pub fn find_from(v: &Vec<char>, sep: &Vec<char>, from: usize) -> (r: Option<usize>)
    requires
        from <= v.len(),
        sep.len() > 0,
    ensures
        match r {
            Some(i) => i as int == first_occurrence(v@, sep@, from as int),
            None => first_occurrence(v@, sep@, from as int) == -1,
        },
{
    if sep.len() > v.len() {
        return None;
    }
    let last = v.len() - sep.len();
    let mut i = from;
    while i <= last
        invariant
            from <= i,
            last + sep.len() == v.len(),
            sep.len() > 0,
            first_occurrence(v@, sep@, from as int) == first_occurrence(v@, sep@, i as int),
        decreases v.len() - i,
    {
        let mut j: usize = 0;
        let mut same = true;
        while j < sep.len()
            invariant
                i + sep.len() <= v.len(),
                j <= sep.len(),
                same == (forall|k: int| 0 <= k < j ==> v@[i + k] == sep@[k]),
            decreases sep.len() - j,
        {
            if v[i + j] != sep[j] {
                same = false;
            }
            j = j + 1;
        }
        proof {
            let w = v@.subrange(i as int, i + sep.len());
            if same {
                assert(w =~= sep@);
            } else {
                assert(w != sep@) by {
                    let k = choose|k: int| 0 <= k < sep.len() && v@[i + k] != sep@[k];
                    assert(w[k] != sep@[k]);
                }
            }
        }
        if same {
            return Some(i);
        }
        i = i + 1;
    }
    None
}

} // verus!

verus! {

pub proof fn lemma_occurs_at_skip(s: Seq<char>, sep: Seq<char>, k: int, j: int)
    requires
        0 <= k <= s.len(),
        0 <= j,
    ensures
        occurs_at(s.skip(k), sep, j) == occurs_at(s, sep, j + k),
{
    if j + sep.len() <= s.len() - k {
        assert(s.skip(k).subrange(j, j + sep.len()) =~= s.subrange(j + k, j + k + sep.len()));
    }
}

/// Searching in a suffix finds the same occurrences, shifted.
pub proof fn lemma_first_occurrence_skip(s: Seq<char>, sep: Seq<char>, k: int, j: int)
    requires
        0 <= k <= s.len(),
        0 <= j,
    ensures
        first_occurrence(s.skip(k), sep, j) == (if first_occurrence(s, sep, j + k) < 0 {
            -1
        } else {
            first_occurrence(s, sep, j + k) - k
        }),
    decreases s.len() - k + 1 - j,
{
    lemma_occurs_at_skip(s, sep, k, j);
    if j + sep.len() > s.len() - k {
    } else if occurs_at(s, sep, j + k) {
    } else {
        lemma_first_occurrence_skip(s, sep, k, j + 1);
    }
}

/// `split_on(s, sep)` has exactly one piece when `sep` does not occur, and
/// exactly two when it occurs once: the text before and the text after.
pub proof fn lemma_split_shape(s: Seq<char>, sep: Seq<char>)
    requires
        sep.len() > 0,
    ensures
        split_on(s, sep).len() >= 1,
        first_occurrence(s, sep, 0) < 0 ==> split_on(s, sep) == seq![s],
        ({
            let i = first_occurrence(s, sep, 0);
            i >= 0 ==> {
                &&& split_on(s, sep)[0] == s.take(i)
                &&& split_on(s, sep).len() >= 2
                &&& split_on(s, sep) == seq![s.take(i)] + split_on(s.skip(i + sep.len()), sep)
                &&& (first_occurrence(s, sep, i + sep.len()) < 0 <==> split_on(s, sep).len() == 2)
                &&& first_occurrence(s, sep, i + sep.len()) < 0 ==> split_on(s, sep)[1] == s.skip(i + sep.len())
            }
        }),
    decreases s.len(),
{
    let i = first_occurrence(s, sep, 0);
    lemma_first_occurrence_bounds(s, sep, 0);
    if i >= 0 {
        let rest = s.skip(i + sep.len());
        lemma_split_shape(rest, sep);
        lemma_first_occurrence_skip(s, sep, i + sep.len(), 0);
        lemma_first_occurrence_bounds(rest, sep, 0);
        lemma_first_occurrence_bounds(s, sep, i + sep.len());
        assert(split_on(s, sep) == seq![s.take(i)] + split_on(rest, sep));
        if first_occurrence(rest, sep, 0) >= 0 {
            lemma_split_shape(rest.skip(first_occurrence(rest, sep, 0) + sep.len()), sep);
        }
    }
}

/// The decimal digit for `d < 10`.
pub open spec fn digit_char(d: nat) -> char {
    ('0' as nat + d) as char
}

/// The decimal representation of `n`, without leading zeros.
pub open spec fn decimal(n: nat) -> Seq<char>
    decreases n,
{
    if n < 10 {
        seq![digit_char(n)]
    } else {
        decimal(n / 10).push(digit_char(n % 10))
    }
}

/// The decimal representation of a signed number: a `-` before the digits of
/// a negative one.
pub open spec fn signed_decimal(x: int) -> Seq<char> {
    if x < 0 {
        seq!['-'].add(decimal((-x) as nat))
    } else {
        decimal(x as nat)
    }
}

pub proof fn lemma_decimal(n: nat)
    ensures
        decimal(n).len() > 0,
        all_digits(decimal(n)),
        digits_value(decimal(n)) == n,
    decreases n,
{
    if n >= 10 {
        lemma_decimal(n / 10);
        lemma_digits_value_push(decimal(n / 10), digit_char(n % 10));
        assert(n == (n / 10) * 10 + n % 10);
        assert(decimal(n) == decimal(n / 10).push(digit_char(n % 10)));
        assert(digit_char(n % 10) as int - '0' as int == n % 10);
        assert(digits_value(decimal(n)) == digits_value(decimal(n / 10)) * 10 + n % 10);
        assert(digits_value(decimal(n / 10)) == n / 10);
        assert forall|i: int| 0 <= i < decimal(n).len() implies #[trigger] is_digit(decimal(n)[i]) by {
            if i < decimal(n / 10).len() {
                assert(decimal(n)[i] == decimal(n / 10)[i]);
            }
        }
    } else {
        assert(decimal(n).drop_last() =~= Seq::<char>::empty());
        assert(digit_char(n) as int - '0' as int == n);
        lemma_digits_value_push(Seq::<char>::empty(), digit_char(n));
        assert(Seq::<char>::empty().push(digit_char(n)) =~= decimal(n));
        assert(digits_value(Seq::<char>::empty()) == 0);
    }
}

/// Appends one character to a string (`String::push`).
#[verifier::external_body]
pub fn push_char(s: &mut String, c: char)
    ensures
        final(s)@ == old(s)@.push(c),
{
    s.push(c);
}

/// The decimal text of `n`.
pub fn usize_to_text(n: usize) -> (r: String)
    ensures
        r@ == decimal(n as nat),
{
    let mut digits: Vec<char> = Vec::new();
    let mut m = n;
    // digits in reverse order, least significant first
    loop
        invariant_except_break
            m <= n,
            decimal(n as nat) == decimal(m as nat) + Seq::new(digits.len() as nat, |i: int| digits@[digits.len() - 1 - i]),
        ensures
            decimal(n as nat) == Seq::new(digits.len() as nat, |i: int| digits@[digits.len() - 1 - i]),
        decreases m,
    {
        let d = m % 10;
        let c = ((d as u32) + ('0' as u32)) as u8 as char;
        assert(c == digit_char((m % 10) as nat));
        if m < 10 {
            digits.push(c);
            proof {
                let old_tail = Seq::new((digits.len() - 1) as nat, |i: int| digits@[digits.len() - 2 - i]);
                let new_all = Seq::new(digits.len() as nat, |i: int| digits@[digits.len() - 1 - i]);
                assert(new_all =~= seq![c] + old_tail);
                assert(decimal(m as nat) == seq![c]);
            }
            break;
        }
        digits.push(c);
        proof {
            let q = (m / 10) as nat;
            assert(decimal(m as nat) == decimal(q).push(c));
            let old_tail = Seq::new((digits.len() - 1) as nat, |i: int| digits@[digits.len() - 2 - i]);
            let new_all = Seq::new(digits.len() as nat, |i: int| digits@[digits.len() - 1 - i]);
            assert(new_all =~= seq![c] + old_tail);
            assert(decimal(q).push(c) + old_tail =~= decimal(q) + new_all);
        }
        m = m / 10;
    }
    let ghost all = Seq::new(digits.len() as nat, |i: int| digits@[digits.len() - 1 - i]);
    assert(decimal(n as nat) == all);
    let mut r = String::new();
    let mut k = digits.len();
    while k > 0
        invariant
            k <= digits.len(),
            r@ == all.take((digits.len() - k) as int),
            all.len() == digits.len(),
            all == Seq::new(digits.len() as nat, |i: int| digits@[digits.len() - 1 - i]),
        decreases k,
    {
        k = k - 1;
        push_char(&mut r, digits[k]);
        assert(all.take((digits.len() - k) as int) =~= all.take((digits.len() - k - 1) as int).push(digits@[k as int]));
    }
    assert(all.take(digits.len() as int) =~= all);
    r
}

} // verus!

verus! {

/// The decimal text of `x`, with a leading `-` when negative.
pub fn i32_to_text(x: i32) -> (r: String)
    ensures
        r@ == signed_decimal(x as int),
{
    if x < 0 {
        let m: i64 = -(x as i64);
        let digits = usize_to_text(m as usize);
        let mut r = String::new();
        push_char(&mut r, '-');
        r.append(digits.as_str());
        r
    } else {
        usize_to_text(x as usize)
    }
}

} // verus!

verus! {

/// The characters `v[lo..hi]` as a vector of their own.
pub fn sub_chars(v: &Vec<char>, lo: usize, hi: usize) -> (r: Vec<char>)
    requires
        lo <= hi <= v.len(),
    ensures
        r@ == v@.subrange(lo as int, hi as int),
{
    let mut r: Vec<char> = Vec::new();
    let mut i = lo;
    while i < hi
        invariant
            lo <= i <= hi <= v.len(),
            r@ == v@.subrange(lo as int, i as int),
        decreases hi - i,
    {
        r.push(v[i]);
        assert(v@.subrange(lo as int, i + 1) =~= v@.subrange(lo as int, i as int).push(v@[i as int]));
        i = i + 1;
    }
    r
}

/// Whether the characters `v[lo..hi]` spell out exactly `w`.
pub fn chars_equal(v: &Vec<char>, lo: usize, hi: usize, w: &Vec<char>) -> (r: bool)
    requires
        lo <= hi <= v.len(),
    ensures
        r == (v@.subrange(lo as int, hi as int) == w@),
{
    if hi - lo != w.len() {
        assert(v@.subrange(lo as int, hi as int).len() != w@.len());
        return false;
    }
    let mut i: usize = 0;
    while i < w.len()
        invariant
            hi - lo == w.len(),
            lo <= hi <= v.len(),
            i <= w.len(),
            forall|k: int| 0 <= k < i ==> v@[lo + k] == w@[k],
        decreases w.len() - i,
    {
        if v[lo + i] != w[i] {
            assert(v@.subrange(lo as int, hi as int)[i as int] != w@[i as int]);
            return false;
        }
        i = i + 1;
    }
    assert(v@.subrange(lo as int, hi as int) =~= w@);
    true
}

} // verus!

verus! {

/// No occurrence of `sep` starts at or after `from` if its first character
/// is missing from there on.
pub proof fn lemma_no_occurrence_from(s: Seq<char>, sep: Seq<char>, from: int)
    requires
        sep.len() > 0,
        0 <= from,
        forall|i: int| from <= i < s.len() ==> s[i] != sep[0],
    ensures
        first_occurrence(s, sep, from) < 0,
    decreases s.len() + 1 - from,
{
    if from + sep.len() > s.len() {
    } else {
        assert(s.subrange(from, from + sep.len())[0] == s[from]);
        lemma_no_occurrence_from(s, sep, from + 1);
    }
}

/// The first occurrence from `from` is at `k` when it occurs there and its
/// first character is missing before.
pub proof fn lemma_first_occurrence_is(s: Seq<char>, sep: Seq<char>, from: int, k: int)
    requires
        sep.len() > 0,
        0 <= from <= k,
        occurs_at(s, sep, k),
        forall|i: int| from <= i < k ==> s[i] != sep[0],
    ensures
        first_occurrence(s, sep, from) == k,
    decreases k - from,
{
    if from < k {
        assert(s.subrange(from, from + sep.len())[0] == s[from]);
        lemma_first_occurrence_is(s, sep, from + 1, k);
    }
}

/// Decimal text is made of digits only.
pub proof fn lemma_decimal_chars(n: nat)
    ensures
        decimal(n).len() > 0,
        forall|i: int| 0 <= i < decimal(n).len() ==> is_digit(#[trigger] decimal(n)[i]),
{
    lemma_decimal(n);
}

/// Signed decimal text is a digit or `-` first, then digits.
pub proof fn lemma_signed_decimal_chars(x: int)
    ensures
        signed_decimal(x).len() > 0,
        forall|i: int| 0 <= i < signed_decimal(x).len() ==> is_digit(#[trigger] signed_decimal(x)[i])
            || (i == 0 && signed_decimal(x)[i] == '-'),
{
    if x < 0 {
        lemma_decimal_chars((-x) as nat);
        assert forall|i: int| 0 <= i < signed_decimal(x).len() implies is_digit(#[trigger] signed_decimal(x)[i])
            || (i == 0 && signed_decimal(x)[i] == '-') by {
            if i > 0 {
                assert(signed_decimal(x)[i] == decimal((-x) as nat)[i - 1]);
            }
        }
    } else {
        lemma_decimal_chars(x as nat);
    }
}

/// `usize::from_str` reads back the decimal text of a `usize`.
pub proof fn lemma_parse_usize_decimal(n: usize)
    ensures
        spec_parse_usize(decimal(n as nat)) == Some(n),
{
    lemma_decimal(n as nat);
    assert(is_digit(decimal(n as nat)[0]));
}

/// `i32::from_str` reads back the signed decimal text of an `i32`.
pub proof fn lemma_parse_i32_decimal(x: i32)
    ensures
        spec_parse_i32(signed_decimal(x as int)) == Some(x),
{
    if x < 0 {
        lemma_decimal((-x) as nat);
        assert(signed_decimal(x as int).drop_first() =~= decimal((-x) as nat));
    } else {
        lemma_decimal(x as nat);
        assert(is_digit(decimal(x as nat)[0]));
    }
}

/// Whether two texts are the same.
pub fn same_text(a: &str, b: &str) -> (r: bool)
    ensures
        r == (a@ == b@),
{
    a.to_string() == b.to_string()
}

} // verus!
