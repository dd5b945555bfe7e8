//! Character-level text operations (search, trimming) used on configuration values and on
//! the error messages of the block engines.
use crate::sdk::push_char;
use vstd::prelude::*;

verus! {

/// Whether `c` has the Unicode `White_Space` property, as `char::is_whitespace` decides.
pub open spec fn spec_is_whitespace(c: char) -> bool {
    c == ' ' || ('\t' <= c && c <= '\r') || c == '\u{85}' || c == '\u{a0}' || c == '\u{1680}'
        || ('\u{2000}' <= c && c <= '\u{200a}') || c == '\u{2028}' || c == '\u{2029}' || c == '\u{202f}'
        || c == '\u{205f}' || c == '\u{3000}'
}

/// Whether `c` is white space (`char::is_whitespace`).
pub fn is_whitespace(c: char) -> (r: bool)
    ensures
        r == spec_is_whitespace(c),
{
    c == ' ' || ('\t' <= c && c <= '\r') || c == '\u{85}' || c == '\u{a0}' || c == '\u{1680}'
        || ('\u{2000}' <= c && c <= '\u{200a}') || c == '\u{2028}' || c == '\u{2029}' || c == '\u{202f}'
        || c == '\u{205f}' || c == '\u{3000}'
}

/// The characters of a string.
pub fn chars_of(s: &str) -> (r: Vec<char>)
    ensures
        r@ == s@,
{
    let n = s.unicode_len();
    let mut out: Vec<char> = Vec::new();
    let mut i: usize = 0;
    while i < n
        invariant
            n == s@.len(),
            0 <= i <= n,
            out@ =~= s@.take(i as int),
        decreases n - i,
    {
        out.push(s.get_char(i));
        i = i + 1;
    }
    assert(s@.take(n as int) =~= s@);
    out
}

/// A string of the characters `cs[from..to]`.
pub fn string_of(cs: &Vec<char>, from: usize, to: usize) -> (r: String)
    requires
        from <= to <= cs@.len(),
    ensures
        r@ == cs@.subrange(from as int, to as int),
{
    let mut out = String::new();
    let mut i: usize = from;
    while i < to
        invariant
            from <= i <= to <= cs@.len(),
            out@ =~= cs@.subrange(from as int, i as int),
        decreases to - i,
    {
        push_char(&mut out, cs[i]);
        i = i + 1;
    }
    out
}

/// `needle` occurs in `hay` at position `i`.
pub open spec fn occurs_at(hay: Seq<char>, needle: Seq<char>, i: int) -> bool {
    0 <= i && i + needle.len() <= hay.len() && hay.subrange(i, i + needle.len()) == needle
}

/// `needle` occurs somewhere in `hay`.
pub open spec fn spec_contains(hay: Seq<char>, needle: Seq<char>) -> bool {
    exists|i: int| occurs_at(hay, needle, i)
}

/// The first position where `needle` occurs in `hay`, if any.
pub open spec fn spec_find(hay: Seq<char>, needle: Seq<char>) -> Option<int> {
    if spec_contains(hay, needle) {
        Some(choose|i: int| occurs_at(hay, needle, i) && forall|j: int| 0 <= j < i ==> !occurs_at(hay, needle, j))
    } else {
        None
    }
}

/// Whether `needle` occurs at `i` (character by character).
fn matches_at(hay: &Vec<char>, needle: &Vec<char>, i: usize) -> (r: bool)
    requires
        i + needle@.len() <= hay@.len(),
    ensures
        r == occurs_at(hay@, needle@, i as int),
{
    let hn = hay.len();
    let mut j: usize = 0;
    while j < needle.len()
        invariant
            hn == hay@.len(),
            i + needle@.len() <= hay@.len(),
            0 <= j <= needle@.len(),
            forall|k: int| 0 <= k < j ==> hay@[i + k] == needle@[k],
        decreases needle.len() - j,
    {
        if hay[i + j] != needle[j] {
            assert(hay@.subrange(i as int, i + needle@.len())[j as int] != needle@[j as int]);
            return false;
        }
        j = j + 1;
    }
    assert(hay@.subrange(i as int, i + needle@.len()) =~= needle@);
    true
}

/// The first position where `needle` occurs in `hay`.
pub fn find_chars(hay: &Vec<char>, needle: &Vec<char>) -> (r: Option<usize>)
    ensures
        match r {
            Some(i) => spec_find(hay@, needle@) == Some(i as int) && occurs_at(hay@, needle@, i as int),
            None => spec_find(hay@, needle@) is None,
        },
{
    if needle.len() > hay.len() {
        assert(!spec_contains(hay@, needle@));
        return None;
    }
    if needle.len() == 0 {
        proof {
            assert(hay@.subrange(0, 0) =~= needle@);
            assert(occurs_at(hay@, needle@, 0));
            let c = choose|k: int| occurs_at(hay@, needle@, k) && forall|j: int| 0 <= j < k ==> !occurs_at(hay@, needle@, j);
            assert(c == 0);
        }
        return Some(0);
    }
    let hn = hay.len();
    let last = hn - needle.len();
    let mut i: usize = 0;
    while i <= last
        invariant
            hn == hay@.len(),
            needle@.len() >= 1,
            last == hay@.len() - needle@.len(),
            0 <= i <= last + 1,
            forall|j: int| 0 <= j < i ==> !occurs_at(hay@, needle@, j),
        decreases last + 1 - i,
    {
        if matches_at(hay, needle, i) {
            proof {
                assert(spec_contains(hay@, needle@));
                let c = choose|k: int| occurs_at(hay@, needle@, k) && forall|j: int| 0 <= j < k ==> !occurs_at(hay@, needle@, j);
                assert(occurs_at(hay@, needle@, c));
                if c < i {
                } else if c > i {
                    assert(!occurs_at(hay@, needle@, i as int));
                }
            }
            return Some(i);
        }
        i = i + 1;
    }
    assert(!spec_contains(hay@, needle@));
    None
}

/// Whether `needle` occurs in `hay`.
pub fn contains_str(hay: &str, needle: &str) -> (r: bool)
    ensures
        r == spec_contains(hay@, needle@),
{
    let h = chars_of(hay);
    let n = chars_of(needle);
    match find_chars(&h, &n) {
        Some(_) => true,
        None => false,
    }
}

/// Number of leading white-space characters.
pub open spec fn spec_lead_ws(s: Seq<char>) -> int
    decreases s.len(),
{
    if s.len() > 0 && spec_is_whitespace(s[0]) { 1 + spec_lead_ws(s.drop_first()) } else { 0 }
}

/// Number of trailing white-space characters.
pub open spec fn spec_trail_ws(s: Seq<char>) -> int
    decreases s.len(),
{
    if s.len() > 0 && spec_is_whitespace(s.last()) { 1 + spec_trail_ws(s.drop_last()) } else { 0 }
}

/// `str::trim_start`.
pub open spec fn spec_trim_start(s: Seq<char>) -> Seq<char> {
    s.skip(spec_lead_ws(s))
}

/// `str::trim`: without leading and trailing white space.
pub open spec fn spec_trim(s: Seq<char>) -> Seq<char> {
    let t = spec_trim_start(s);
    t.take(t.len() - spec_trail_ws(t))
}

proof fn lemma_lead_ws_bound(s: Seq<char>)
    ensures
        0 <= spec_lead_ws(s) <= s.len(),
    decreases s.len(),
{
    if s.len() > 0 && spec_is_whitespace(s[0]) {
        lemma_lead_ws_bound(s.drop_first());
    }
}

proof fn lemma_trail_ws_bound(s: Seq<char>)
    ensures
        0 <= spec_trail_ws(s) <= s.len(),
    decreases s.len(),
{
    if s.len() > 0 && spec_is_whitespace(s.last()) {
        lemma_trail_ws_bound(s.drop_last());
    }
}

/// Counting leading white space from position `i` on.
proof fn lemma_lead_ws_step(s: Seq<char>, i: int)
    requires
        0 <= i <= s.len(),
        forall|k: int| 0 <= k < i ==> spec_is_whitespace(s[k]),
    ensures
        spec_lead_ws(s) == i + spec_lead_ws(s.skip(i)),
    decreases i,
{
    if i > 0 {
        assert(spec_is_whitespace(s[0]));
        assert forall|k: int| 0 <= k < i - 1 implies spec_is_whitespace(s.drop_first()[k]) by {
            assert(s.drop_first()[k] == s[k + 1]);
        }
        assert(s.drop_first().skip(i - 1) =~= s.skip(i));
        lemma_lead_ws_step(s.drop_first(), i - 1);
    } else {
        assert(s.skip(0) =~= s);
    }
}

/// Counting trailing white space before position `n - i`.
proof fn lemma_trail_ws_step(s: Seq<char>, i: int)
    requires
        0 <= i <= s.len(),
        forall|k: int| s.len() - i <= k < s.len() ==> spec_is_whitespace(s[k]),
    ensures
        spec_trail_ws(s) == i + spec_trail_ws(s.take(s.len() - i)),
    decreases i,
{
    if i > 0 {
        assert(spec_is_whitespace(s[s.len() - 1]));
        assert forall|k: int| s.drop_last().len() - (i - 1) <= k < s.drop_last().len() implies spec_is_whitespace(s.drop_last()[k]) by {
            assert(s.drop_last()[k] == s[k]);
        }
        assert(s.drop_last().take(s.drop_last().len() - (i - 1)) =~= s.take(s.len() - i));
        lemma_trail_ws_step(s.drop_last(), i - 1);
    } else {
        assert(s.take(s.len() as int) =~= s);
    }
}

/// Positions `[start, end)` of the trimmed text.
pub fn trim_bounds(cs: &Vec<char>) -> (r: (usize, usize))
    ensures
        r.0 <= r.1 <= cs@.len(),
        cs@.subrange(r.0 as int, r.1 as int) == spec_trim(cs@),
        r.0 == spec_lead_ws(cs@),
{
    let n = cs.len();
    let mut start: usize = 0;
    while start < n && is_whitespace(cs[start])
        invariant
            n == cs@.len(),
            0 <= start <= n,
            forall|k: int| 0 <= k < start ==> spec_is_whitespace(cs@[k]),
        decreases n - start,
    {
        start = start + 1;
    }
    proof {
        lemma_lead_ws_step(cs@, start as int);
        if start < n {
            assert(!spec_is_whitespace(cs@.skip(start as int)[0]));
        }
        assert(spec_lead_ws(cs@.skip(start as int)) == 0);
    }
    let ghost t = cs@.skip(start as int);
    let mut end: usize = n;
    while end > start && is_whitespace(cs[end - 1])
        invariant
            n == cs@.len(),
            0 <= start <= end <= n,
            t == cs@.skip(start as int),
            forall|k: int| end <= k < n ==> spec_is_whitespace(cs@[k]),
        decreases end - start,
    {
        end = end - 1;
    }
    proof {
        let i = (n - end) as int;
        assert forall|k: int| t.len() - i <= k < t.len() implies spec_is_whitespace(t[k]) by {
            assert(t[k] == cs@[start + k]);
        }
        lemma_trail_ws_step(t, i);
        assert(t.take(t.len() - i) =~= cs@.subrange(start as int, end as int));
        let u = t.take(t.len() - i);
        if u.len() > 0 {
            assert(u.last() == cs@[end - 1]);
            assert(!spec_is_whitespace(u.last()));
        }
        assert(spec_trail_ws(u) == 0);
    }
    (start, end)
}

/// `s.trim()` as a string.
pub fn trim(s: &str) -> (r: String)
    ensures
        r@ == spec_trim(s@),
{
    let cs = chars_of(s);
    let (a, b) = trim_bounds(&cs);
    string_of(&cs, a, b)
}

/// Whether `s.trim()` is empty.
pub fn trim_is_empty(s: &str) -> (r: bool)
    ensures
        r == (spec_trim(s@).len() == 0),
{
    let cs = chars_of(s);
    let (a, b) = trim_bounds(&cs);
    a == b
}

/// `s.trim_start().starts_with(c)`.
pub fn trim_start_starts_with(s: &str, c: char) -> (r: bool)
    ensures
        r == (spec_trim_start(s@).len() > 0 && spec_trim_start(s@)[0] == c),
{
    let cs = chars_of(s);
    let (a, _b) = trim_bounds(&cs);
    proof {
        lemma_lead_ws_bound(cs@);
    }
    a < cs.len() && cs[a] == c
}

/// Number of trailing `c` characters.
pub open spec fn spec_trail_count(s: Seq<char>, c: char) -> int
    decreases s.len(),
{
    if s.len() > 0 && s.last() == c { 1 + spec_trail_count(s.drop_last(), c) } else { 0 }
}

/// `str::trim_end_matches(c)`.
pub open spec fn spec_trim_end_matches(s: Seq<char>, c: char) -> Seq<char> {
    s.take(s.len() - spec_trail_count(s, c))
}

proof fn lemma_trail_count_step(s: Seq<char>, c: char, i: int)
    requires
        0 <= i <= s.len(),
        forall|k: int| s.len() - i <= k < s.len() ==> s[k] == c,
    ensures
        spec_trail_count(s, c) == i + spec_trail_count(s.take(s.len() - i), c),
    decreases i,
{
    if i > 0 {
        assert(s[s.len() - 1] == c);
        assert forall|k: int| s.drop_last().len() - (i - 1) <= k < s.drop_last().len() implies s.drop_last()[k] == c by {
            assert(s.drop_last()[k] == s[k]);
        }
        assert(s.drop_last().take(s.drop_last().len() - (i - 1)) =~= s.take(s.len() - i));
        lemma_trail_count_step(s.drop_last(), c, i - 1);
    } else {
        assert(s.take(s.len() as int) =~= s);
    }
}

proof fn lemma_trail_count_bound(s: Seq<char>, c: char)
    ensures
        0 <= spec_trail_count(s, c) <= s.len(),
    decreases s.len(),
{
    if s.len() > 0 && s.last() == c {
        lemma_trail_count_bound(s.drop_last(), c);
    }
}

/// `trim_end_matches` leaves no trailing `c`.
pub proof fn law_trim_end_matches_strips(s: Seq<char>, c: char)
    ensures
        spec_trim_end_matches(s, c).len() == 0 || spec_trim_end_matches(s, c).last() != c,
    decreases s.len(),
{
    lemma_trail_count_bound(s, c);
    if s.len() > 0 && s.last() == c {
        lemma_trail_count_bound(s.drop_last(), c);
        law_trim_end_matches_strips(s.drop_last(), c);
        assert(spec_trim_end_matches(s, c) =~= spec_trim_end_matches(s.drop_last(), c));
    } else if s.len() > 0 {
        assert(spec_trim_end_matches(s, c) =~= s);
    }
}

/// `s.trim_end_matches(c)` as a string.
pub fn trim_end_matches(s: &str, c: char) -> (r: String)
    ensures
        r@ == spec_trim_end_matches(s@, c),
{
    let cs = chars_of(s);
    let n = cs.len();
    let mut end: usize = n;
    while end > 0 && cs[end - 1] == c
        invariant
            n == cs@.len(),
            0 <= end <= n,
            forall|k: int| end <= k < n ==> cs@[k] == c,
        decreases end,
    {
        end = end - 1;
    }
    proof {
        lemma_trail_count_step(cs@, c, (n - end) as int);
        let u = cs@.take(end as int);
        if u.len() > 0 {
            assert(u.last() == cs@[end - 1]);
        }
        assert(spec_trail_count(u, c) == 0);
    }
    string_of(&cs, 0, end)
}

/// `s` ends with `suffix`.
pub open spec fn spec_ends_with(s: Seq<char>, suffix: Seq<char>) -> bool {
    suffix.len() <= s.len() && s.subrange(s.len() - suffix.len(), s.len() as int) == suffix
}

/// Whether `s` ends with `suffix`.
pub fn ends_with_str(s: &str, suffix: &str) -> (r: bool)
    ensures
        r == spec_ends_with(s@, suffix@),
{
    let h = chars_of(s);
    let n = chars_of(suffix);
    if n.len() > h.len() {
        return false;
    }
    matches_at(&h, &n, h.len() - n.len())
}

/// Concatenation of two strings.
pub fn concat(a: &str, b: &str) -> (r: String)
    ensures
        r@ == a@ + b@,
{
    let mut out = String::new();
    out.append(a);
    out.append(b);
    assert(out@ =~= a@ + b@);
    out
}

} // verus!
