//! Dotted-decimal IPv4 text: what counts as an address, and a checker for it.

use vstd::prelude::*;

verus! {

/// An ASCII decimal digit.
pub open spec fn is_digit(c: char) -> bool {
    '0' <= c && c <= '9'
}

/// The number a decimal digit stands for.
pub open spec fn digit_value(c: char) -> int {
    c as int - '0' as int
}

/// Every character of `s` is a decimal digit.
pub open spec fn all_digits(s: Seq<char>) -> bool {
    forall|m: int| 0 <= m < s.len() ==> is_digit(#[trigger] s[m])
}

/// The number written by one to three decimal digits.
pub open spec fn octet_value(s: Seq<char>) -> int
    recommends
        1 <= s.len() <= 3,
{
    if s.len() == 1 {
        digit_value(s[0])
    } else if s.len() == 2 {
        10 * digit_value(s[0]) + digit_value(s[1])
    } else {
        100 * digit_value(s[0]) + 10 * digit_value(s[1]) + digit_value(s[2])
    }
}

/// One part of an address: one to three digits, no leading zero unless the
/// part is the single digit `0`, and a value of at most 255.
pub open spec fn is_octet(s: Seq<char>) -> bool {
    &&& 1 <= s.len() <= 3
    &&& all_digits(s)
    &&& (s.len() > 1 ==> s[0] != '0')
    &&& octet_value(s) <= 255
}

/// `s` is four octets, with dots at `i`, `j` and `k` between them.
pub open spec fn splits_as_ipv4(s: Seq<char>, i: int, j: int, k: int) -> bool {
    &&& 0 < i < j < k < s.len()
    &&& s[i] == '.'
    &&& s[j] == '.'
    &&& s[k] == '.'
    &&& is_octet(s.subrange(0, i))
    &&& is_octet(s.subrange(i + 1, j))
    &&& is_octet(s.subrange(j + 1, k))
    &&& is_octet(s.subrange(k + 1, s.len() as int))
}

/// `s` is an IPv4 address in dotted-decimal form: exactly four octets
/// separated by single dots, and nothing else.
pub open spec fn is_ipv4(s: Seq<char>) -> bool {
    exists|i: int, j: int, k: int| splits_as_ipv4(s, i, j, k)
}

/// `e` is where the run of digits that starts at `pos` stops.
pub open spec fn digit_run(s: Seq<char>, pos: int, e: int) -> bool {
    &&& 0 <= pos <= e <= s.len()
    &&& forall|m: int| pos <= m < e ==> is_digit(#[trigger] s[m])
    &&& (e == s.len() || !is_digit(s[e]))
}

/// A run of digits from a given start has one end only.
pub proof fn lemma_digit_run_unique(s: Seq<char>, pos: int, e1: int, e2: int)
    requires
        digit_run(s, pos, e1),
        digit_run(s, pos, e2),
    ensures
        e1 == e2,
{
    if e1 < e2 {
        assert(is_digit(s[e1]));
    } else if e2 < e1 {
        assert(is_digit(s[e2]));
    }
}

/// An octet that stands between `pos` and a dot, or the end, fills the run of
/// digits that starts at `pos`.
pub proof fn lemma_octet_is_digit_run(s: Seq<char>, pos: int, e: int)
    requires
        0 <= pos <= e <= s.len(),
        is_octet(s.subrange(pos, e)),
        e == s.len() || s[e] == '.',
    ensures
        digit_run(s, pos, e),
{
    let part = s.subrange(pos, e);
    assert forall|m: int| pos <= m < e implies is_digit(#[trigger] s[m]) by {
        assert(part[m - pos] == s[m]);
    }
}

/// Whether a character is a decimal digit.
pub fn char_is_digit(c: char) -> (r: bool)
    ensures
        r == is_digit(c),
{
    '0' <= c && c <= '9'
}

/// The number a decimal digit stands for.
pub(crate) fn char_digit_value(c: char) -> (v: u32)
    requires
        is_digit(c),
    ensures
        v == digit_value(c),
        v <= 9,
{
    c as u32 - '0' as u32
}

/// Where the run of digits that starts at `pos` stops.
pub(crate) fn digit_run_end(s: &[char], pos: usize) -> (e: usize)
    requires
        pos <= s.len(),
    ensures
        digit_run(s@, pos as int, e as int),
{
    let mut e: usize = pos;
    while e < s.len() && char_is_digit(s[e])
        invariant
            pos <= e <= s.len(),
            forall|m: int| pos <= m < e ==> is_digit(#[trigger] s@[m]),
        decreases s.len() - e,
    {
        e = e + 1;
    }
    e
}

/// Whether the digits between `pos` and `e` form an octet.
pub(crate) fn digits_are_octet(s: &[char], pos: usize, e: usize) -> (ok: bool)
    requires
        pos <= e <= s.len(),
        forall|m: int| pos <= m < e ==> is_digit(#[trigger] s@[m]),
    ensures
        ok == is_octet(s@.subrange(pos as int, e as int)),
{
    let ghost part = s@.subrange(pos as int, e as int);
    let n: usize = e - pos;
    if n < 1 || n > 3 {
        return false;
    }
    assert(all_digits(part)) by {
        assert forall|m: int| 0 <= m < part.len() implies is_digit(#[trigger] part[m]) by {
            assert(part[m] == s@[pos + m]);
        }
    }
    assert(part[0] == s@[pos as int]);
    if n > 1 && s[pos] == '0' {
        return false;
    }
    let d0: u32 = char_digit_value(s[pos]);
    if n == 1 {
        return true;
    }
    assert(part[1] == s@[pos + 1]);
    let d1: u32 = char_digit_value(s[pos + 1]);
    if n == 2 {
        return true;
    }
    assert(part[2] == s@[pos + 2]);
    let d2: u32 = char_digit_value(s[pos + 2]);
    100 * d0 + 10 * d1 + d2 <= 255
}

/// Whether `s` is an IPv4 address in dotted-decimal form.
pub fn is_ipv4_text(s: &[char]) -> (r: bool)
    ensures
        r == is_ipv4(s@),
{
    let n: usize = s.len();
    let e1: usize = digit_run_end(s, 0);
    if e1 >= n || s[e1] != '.' || !digits_are_octet(s, 0, e1) {
        proof {
            lemma_first_part_decides(s@, e1 as int);
        }
        return false;
    }
    let e2: usize = digit_run_end(s, e1 + 1);
    if e2 >= n || s[e2] != '.' || !digits_are_octet(s, e1 + 1, e2) {
        proof {
            lemma_second_part_decides(s@, e1 as int, e2 as int);
        }
        return false;
    }
    let e3: usize = digit_run_end(s, e2 + 1);
    if e3 >= n || s[e3] != '.' || !digits_are_octet(s, e2 + 1, e3) {
        proof {
            lemma_third_part_decides(s@, e1 as int, e2 as int, e3 as int);
        }
        return false;
    }
    let e4: usize = digit_run_end(s, e3 + 1);
    if e4 != n || !digits_are_octet(s, e3 + 1, e4) {
        proof {
            lemma_fourth_part_decides(s@, e1 as int, e2 as int, e3 as int, e4 as int);
        }
        return false;
    }
    assert(splits_as_ipv4(s@, e1 as int, e2 as int, e3 as int));
    true
}

/// In any split of `s` into four octets the dots stand where the runs of
/// digits end.
pub proof fn lemma_split_follows_runs(s: Seq<char>, i: int, j: int, k: int)
    requires
        splits_as_ipv4(s, i, j, k),
    ensures
        digit_run(s, 0, i),
        digit_run(s, i + 1, j),
        digit_run(s, j + 1, k),
        digit_run(s, k + 1, s.len() as int),
{
    lemma_octet_is_digit_run(s, 0, i);
    lemma_octet_is_digit_run(s, i + 1, j);
    lemma_octet_is_digit_run(s, j + 1, k);
    lemma_octet_is_digit_run(s, k + 1, s.len() as int);
}

proof fn lemma_first_part_decides(s: Seq<char>, e1: int)
    requires
        digit_run(s, 0, e1),
        e1 >= s.len() || s[e1] != '.' || !is_octet(s.subrange(0, e1)),
    ensures
        !is_ipv4(s),
{
    assert forall|i: int, j: int, k: int| !splits_as_ipv4(s, i, j, k) by {
        if splits_as_ipv4(s, i, j, k) {
            lemma_split_follows_runs(s, i, j, k);
            lemma_digit_run_unique(s, 0, i, e1);
        }
    }
}

proof fn lemma_second_part_decides(s: Seq<char>, e1: int, e2: int)
    requires
        digit_run(s, 0, e1),
        digit_run(s, e1 + 1, e2),
        e2 >= s.len() || s[e2] != '.' || !is_octet(s.subrange(e1 + 1, e2)),
    ensures
        !is_ipv4(s),
{
    assert forall|i: int, j: int, k: int| !splits_as_ipv4(s, i, j, k) by {
        if splits_as_ipv4(s, i, j, k) {
            lemma_split_follows_runs(s, i, j, k);
            lemma_digit_run_unique(s, 0, i, e1);
            lemma_digit_run_unique(s, i + 1, j, e2);
        }
    }
}

proof fn lemma_third_part_decides(s: Seq<char>, e1: int, e2: int, e3: int)
    requires
        digit_run(s, 0, e1),
        digit_run(s, e1 + 1, e2),
        digit_run(s, e2 + 1, e3),
        e3 >= s.len() || s[e3] != '.' || !is_octet(s.subrange(e2 + 1, e3)),
    ensures
        !is_ipv4(s),
{
    assert forall|i: int, j: int, k: int| !splits_as_ipv4(s, i, j, k) by {
        if splits_as_ipv4(s, i, j, k) {
            lemma_split_follows_runs(s, i, j, k);
            lemma_digit_run_unique(s, 0, i, e1);
            lemma_digit_run_unique(s, i + 1, j, e2);
            lemma_digit_run_unique(s, j + 1, k, e3);
        }
    }
}

proof fn lemma_fourth_part_decides(s: Seq<char>, e1: int, e2: int, e3: int, e4: int)
    requires
        digit_run(s, 0, e1),
        digit_run(s, e1 + 1, e2),
        digit_run(s, e2 + 1, e3),
        digit_run(s, e3 + 1, e4),
        e4 != s.len() || !is_octet(s.subrange(e3 + 1, e4)),
    ensures
        !is_ipv4(s),
{
    assert forall|i: int, j: int, k: int| !splits_as_ipv4(s, i, j, k) by {
        if splits_as_ipv4(s, i, j, k) {
            lemma_split_follows_runs(s, i, j, k);
            lemma_digit_run_unique(s, 0, i, e1);
            lemma_digit_run_unique(s, i + 1, j, e2);
            lemma_digit_run_unique(s, j + 1, k, e3);
            lemma_digit_run_unique(s, k + 1, s.len() as int, e4);
        }
    }
}

} // verus!
