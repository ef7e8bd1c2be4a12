//! Lines, tokens and markers in the text that a command printed.
//!
//! Positions are indices into the whole text. A line runs from after one
//! line feed up to the next; a token is a maximal run of characters that are
//! not separators.

use vstd::prelude::*;
use vstd::slice::slice_subrange;
use crate::ipv4::{is_ipv4, is_ipv4_text};

verus! {

/// Characters that part tokens: blanks, line breaks and the colon.
pub open spec fn is_separator(c: char) -> bool {
    c == ' ' || c == '\t' || c == '\r' || c == '\n' || c == ':'
}

/// `a..b` is a token of `t`: not empty, free of separators, and bounded on
/// both sides by a separator or an end of the text.
pub open spec fn is_token(t: Seq<char>, a: int, b: int) -> bool {
    &&& 0 <= a < b <= t.len()
    &&& (a == 0 || is_separator(t[a - 1]))
    &&& (b == t.len() || is_separator(t[b]))
    &&& forall|m: int| a <= m < b ==> !is_separator(#[trigger] t[m])
}

/// Where the line that holds position `p` begins. A line feed belongs to the
/// line that it ends.
pub open spec fn line_start(t: Seq<char>, p: int) -> int
    recommends
        0 <= p <= t.len(),
    decreases p,
{
    if p <= 0 {
        0
    } else if t[p - 1] == '\n' {
        p
    } else {
        line_start(t, p - 1)
    }
}

/// Where the line that holds position `p` ends: at its line feed, or at the
/// end of the text.
pub open spec fn line_end(t: Seq<char>, p: int) -> int
    recommends
        0 <= p <= t.len(),
    decreases t.len() - p,
{
    if p >= t.len() {
        t.len() as int
    } else if t[p] == '\n' {
        p
    } else {
        line_end(t, p + 1)
    }
}

/// The line that holds position `p`, without its line feed.
pub open spec fn line_at(t: Seq<char>, p: int) -> Seq<char> {
    t.subrange(line_start(t, p), line_end(t, p))
}

/// `m` stands in `s` at offset `k`.
pub open spec fn occurs_at(s: Seq<char>, m: Seq<char>, k: int) -> bool {
    &&& 0 <= k
    &&& k + m.len() <= s.len()
    &&& s.subrange(k, k + m.len()) == m
}

/// `m` stands somewhere in `s`.
pub open spec fn contains(s: Seq<char>, m: Seq<char>) -> bool {
    exists|k: int| occurs_at(s, m, k)
}

/// Position `p` is on a line that holds the marker, or on the line right
/// after one.
pub open spec fn near_marker(t: Seq<char>, m: Seq<char>, p: int) -> bool {
    ||| contains(line_at(t, p), m)
    ||| (line_start(t, p) > 0 && contains(line_at(t, line_start(t, p) - 1), m))
}

/// `a..b` is a token that reads as an IPv4 address and stands near a marker.
pub open spec fn eligible(t: Seq<char>, m: Seq<char>, a: int, b: int) -> bool {
    &&& is_token(t, a, b)
    &&& is_ipv4(t.subrange(a, b))
    &&& near_marker(t, m, a)
}

/// `a..b` is the first eligible token of the text.
pub open spec fn is_gateway(t: Seq<char>, m: Seq<char>, a: int, b: int) -> bool {
    &&& eligible(t, m, a, b)
    &&& forall|a2: int, b2: int| eligible(t, m, a2, b2) ==> a <= a2
}

/// `s..e` is one whole line of `t`.
pub open spec fn is_line(t: Seq<char>, s: int, e: int) -> bool {
    &&& 0 <= s <= e <= t.len()
    &&& (s == 0 || t[s - 1] == '\n')
    &&& (e == t.len() || t[e] == '\n')
    &&& forall|m: int| s <= m < e ==> #[trigger] t[m] != '\n'
}

/// Every position of a line, its line feed included, has that line's bounds.
pub proof fn lemma_line_bounds(t: Seq<char>, s: int, e: int, p: int)
    requires
        is_line(t, s, e),
        s <= p <= e,
    ensures
        line_start(t, p) == s,
        line_end(t, p) == e,
        line_at(t, p) == t.subrange(s, e),
{
    lemma_line_start(t, s, e, p);
    lemma_line_end(t, s, e, p);
}

proof fn lemma_line_start(t: Seq<char>, s: int, e: int, p: int)
    requires
        is_line(t, s, e),
        s <= p <= e,
    ensures
        line_start(t, p) == s,
    decreases p - s,
{
    if p > s {
        assert(t[p - 1] != '\n');
        lemma_line_start(t, s, e, p - 1);
    }
}

proof fn lemma_line_end(t: Seq<char>, s: int, e: int, p: int)
    requires
        is_line(t, s, e),
        s <= p <= e,
    ensures
        line_end(t, p) == e,
    decreases e - p,
{
    if p < e {
        assert(t[p] != '\n');
        lemma_line_end(t, s, e, p + 1);
    }
}

/// A line lies inside the text and around the position that names it.
pub proof fn lemma_line_within(t: Seq<char>, p: int)
    requires
        0 <= p <= t.len(),
    ensures
        0 <= line_start(t, p) <= p <= line_end(t, p) <= t.len(),
{
    lemma_line_start_within(t, p);
    lemma_line_end_within(t, p);
}

proof fn lemma_line_start_within(t: Seq<char>, p: int)
    requires
        0 <= p <= t.len(),
    ensures
        0 <= line_start(t, p) <= p,
    decreases p,
{
    if p > 0 && t[p - 1] != '\n' {
        lemma_line_start_within(t, p - 1);
    }
}

proof fn lemma_line_end_within(t: Seq<char>, p: int)
    requires
        0 <= p <= t.len(),
    ensures
        p <= line_end(t, p) <= t.len(),
    decreases t.len() - p,
{
    if p < t.len() && t[p] != '\n' {
        lemma_line_end_within(t, p + 1);
    }
}

/// What stands in a part of the text stands in the text.
pub proof fn lemma_contains_in_part(t: Seq<char>, s: int, e: int, m: Seq<char>)
    requires
        0 <= s <= e <= t.len(),
        contains(t.subrange(s, e), m),
    ensures
        contains(t, m),
{
    let k = choose|k: int| occurs_at(t.subrange(s, e), m, k);
    assert(t.subrange(s, e).subrange(k, k + m.len()) =~= t.subrange(s + k, s + k + m.len()));
    assert(occurs_at(t, m, s + k));
}

/// A position near a marker is in a text that holds the marker.
pub proof fn lemma_near_marker_needs_marker(t: Seq<char>, m: Seq<char>, p: int)
    requires
        0 <= p <= t.len(),
        near_marker(t, m, p),
    ensures
        contains(t, m),
{
    lemma_line_within(t, p);
    if contains(line_at(t, p), m) {
        lemma_contains_in_part(t, line_start(t, p), line_end(t, p), m);
    } else {
        let q = line_start(t, p) - 1;
        lemma_line_within(t, q);
        lemma_contains_in_part(t, line_start(t, q), line_end(t, q), m);
    }
}

/// A token is known by where it starts.
pub proof fn lemma_token_end_unique(t: Seq<char>, a: int, b1: int, b2: int)
    requires
        is_token(t, a, b1),
        is_token(t, a, b2),
    ensures
        b1 == b2,
{
    if b1 < b2 {
        assert(!is_separator(t[b1]));
    } else if b2 < b1 {
        assert(!is_separator(t[b2]));
    }
}

/// At most one token is the first eligible one.
pub proof fn lemma_gateway_unique(t: Seq<char>, m: Seq<char>, a1: int, b1: int, a2: int, b2: int)
    requires
        is_gateway(t, m, a1, b1),
        is_gateway(t, m, a2, b2),
    ensures
        a1 == a2,
        b1 == b2,
{
    lemma_token_end_unique(t, a1, b1, b2);
}

/// Whether a character parts tokens.
pub fn char_is_separator(c: char) -> (r: bool)
    ensures
        r == is_separator(c),
{
    c == ' ' || c == '\t' || c == '\r' || c == '\n' || c == ':'
}

/// The end of the line that begins at `s`.
pub(crate) fn find_line_end(text: &[char], s: usize) -> (e: usize)
    requires
        s <= text.len(),
        s == 0 || text@[s - 1] == '\n',
    ensures
        is_line(text@, s as int, e as int),
{
    let mut e: usize = s;
    while e < text.len() && text[e] != '\n'
        invariant
            s <= e <= text.len(),
            forall|m: int| s <= m < e ==> #[trigger] text@[m] != '\n',
        decreases text.len() - e,
    {
        e = e + 1;
    }
    e
}

/// Whether `marker` stands in `text` at position `pos`.
pub(crate) fn matches_at(text: &[char], pos: usize, marker: &[char]) -> (r: bool)
    requires
        pos + marker.len() <= text.len(),
    ensures
        r == (text@.subrange(pos as int, pos + marker.len()) == marker@),
{
    let ghost window = text@.subrange(pos as int, pos + marker.len());
    let mut i: usize = 0;
    while i < marker.len()
        invariant
            i <= marker.len(),
            pos + marker.len() <= text.len(),
            window == text@.subrange(pos as int, pos + marker.len()),
            forall|j: int| 0 <= j < i ==> window[j] == marker@[j],
        decreases marker.len() - i,
    {
        if text[pos + i] != marker[i] {
            assert(window[i as int] != marker@[i as int]);
            return false;
        }
        i = i + 1;
    }
    assert(window =~= marker@);
    true
}

/// Whether `marker` stands somewhere between `s` and `e`.
pub(crate) fn has_marker(text: &[char], s: usize, e: usize, marker: &[char]) -> (r: bool)
    requires
        s <= e <= text.len(),
    ensures
        r == contains(text@.subrange(s as int, e as int), marker@),
{
    let ghost line = text@.subrange(s as int, e as int);
    let n: usize = e - s;
    let k: usize = marker.len();
    if k > n {
        assert(forall|j: int| !occurs_at(line, marker@, j));
        return false;
    }
    let last: usize = n - k;
    let mut i: usize = 0;
    loop
        invariant
            s <= e <= text.len(),
            n == e - s,
            k == marker.len(),
            last == n - k,
            i <= last,
            line == text@.subrange(s as int, e as int),
            forall|j: int| 0 <= j < i ==> !occurs_at(line, marker@, j),
        decreases last - i,
    {
        assert(line.subrange(i as int, i + k) =~= text@.subrange(s + i, s + i + k));
        if matches_at(text, s + i, marker) {
            assert(occurs_at(line, marker@, i as int));
            return true;
        }
        if i == last {
            assert(forall|j: int| !occurs_at(line, marker@, j));
            return false;
        }
        i = i + 1;
    }
}

/// The end of the token that begins at `a`, on a line that ends at `e`.
pub(crate) fn find_token_end(text: &[char], a: usize, e: usize) -> (b: usize)
    requires
        a < e <= text.len(),
        !is_separator(text@[a as int]),
        a == 0 || is_separator(text@[a - 1]),
        e == text.len() || is_separator(text@[e as int]),
    ensures
        a < b <= e,
        is_token(text@, a as int, b as int),
{
    let mut b: usize = a + 1;
    while b < e && !char_is_separator(text[b])
        invariant
            a < b <= e <= text.len(),
            forall|m: int| a <= m < b ==> !is_separator(#[trigger] text@[m]),
        decreases e - b,
    {
        b = b + 1;
    }
    b
}

/// The first token between `s` and `e` that reads as an IPv4 address.
pub(crate) fn first_address_in(text: &[char], s: usize, e: usize) -> (r: Option<(usize, usize)>)
    requires
        s <= e <= text.len(),
        s == 0 || is_separator(text@[s - 1]),
        e == text.len() || is_separator(text@[e as int]),
    ensures
        match r {
            Some((a, b)) => {
                &&& s <= a < b <= e
                &&& is_token(text@, a as int, b as int)
                &&& is_ipv4(text@.subrange(a as int, b as int))
                &&& forall|a2: int, b2: int|
                    s <= a2 < a && is_token(text@, a2, b2) ==> !is_ipv4(
                        #[trigger] text@.subrange(a2, b2),
                    )
            },
            None => forall|a2: int, b2: int|
                s <= a2 < e && is_token(text@, a2, b2) ==> !is_ipv4(
                    #[trigger] text@.subrange(a2, b2),
                ),
        },
{
    let mut pos: usize = s;
    while pos < e
        invariant
            s <= pos <= e <= text.len(),
            e == text.len() || is_separator(text@[e as int]),
            pos == e || pos == 0 || is_separator(text@[pos - 1]),
            forall|a2: int, b2: int|
                s <= a2 < pos && is_token(text@, a2, b2) ==> !is_ipv4(
                    #[trigger] text@.subrange(a2, b2),
                ),
        decreases e - pos,
    {
        if char_is_separator(text[pos]) {
            pos = pos + 1;
        } else {
            let b: usize = find_token_end(text, pos, e);
            let token = slice_subrange(text, pos, b);
            if is_ipv4_text(token) {
                return Some((pos, b));
            }
            assert forall|a2: int, b2: int|
                pos <= a2 <= b && a2 < e && is_token(text@, a2, b2) implies !is_ipv4(
                #[trigger] text@.subrange(a2, b2),
            ) by {
                if a2 == pos {
                    lemma_token_end_unique(text@, a2, b2, b as int);
                } else if a2 < b {
                    assert(!is_separator(text@[a2 - 1]));
                } else {
                    assert(is_separator(text@[a2]));
                }
            }
            pos = if b < e { b + 1 } else { e };
        }
    }
    None
}

/// The first token of `text` that reads as an IPv4 address and stands on a
/// line that holds `marker`, or on the line right after one.
///
/// A marker line without an address lets the next line be searched once;
/// after that the marker is spent, and the search goes on to later markers.
pub fn find_gateway(text: &[char], marker: &[char]) -> (r: Option<(usize, usize)>)
    ensures
        match r {
            Some((a, b)) => is_gateway(text@, marker@, a as int, b as int),
            None => forall|a: int, b: int| !eligible(text@, marker@, a, b),
        },
{
    let mut s: usize = 0;
    let mut after_marker: bool = false;
    loop
        invariant
            s <= text.len(),
            s == 0 || text@[s - 1] == '\n',
            after_marker == (s > 0 && contains(line_at(text@, s - 1), marker@)),
            forall|a: int, b: int| a < s ==> !eligible(text@, marker@, a, b),
        decreases text.len() - s,
    {
        let e: usize = find_line_end(text, s);
        let on_marker = has_marker(text, s, e, marker);
        proof {
            assert forall|p: int| s <= p <= e implies line_start(text@, p) == s && line_at(
                text@,
                p,
            ) == text@.subrange(s as int, e as int) by {
                lemma_line_bounds(text@, s as int, e as int, p);
            }
        }
        if on_marker || after_marker {
            match first_address_in(text, s, e) {
                Some((a, b)) => {
                    assert(near_marker(text@, marker@, a as int));
                    return Some((a, b));
                },
                None => {},
            }
        }
        assert forall|a: int, b: int| s <= a <= e implies !eligible(text@, marker@, a, b) by {
            if eligible(text@, marker@, a, b) {
                if a == e {
                    assert(is_separator(text@[a]));
                }
            }
        }
        if e >= text.len() {
            return None;
        }
        after_marker = on_marker;
        s = e + 1;
    }
}

} // verus!
