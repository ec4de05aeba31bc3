//! Splitting path-like strings into segments.
//!
//! Both naming conventions this library bridges are encoded purely in
//! strings: a path is a sequence of segments separated by `/`, and a sidecar
//! filename carries a content identifier before the first `_` or `.`. This
//! module gives those operations a mathematical definition over `Seq<char>`
//! and verified executable counterparts.

use vstd::prelude::*;
use vstd::string::*;

verus! {

/// The index of the first occurrence of `c` in `s`, or `s.len()` if `c`
/// does not occur.
pub open spec fn first_pos(s: Seq<char>, c: char) -> nat
    decreases s.len(),
{
    if s.len() == 0 {
        0
    } else if s[0] == c {
        0
    } else {
        1 + first_pos(s.drop_first(), c)
    }
}

/// `first_pos` is at most the length, nothing before it is `c`, and the
/// character at it (when within bounds) is `c`.
pub proof fn lemma_first_pos_bounds(s: Seq<char>, c: char)
    ensures
        first_pos(s, c) <= s.len(),
        forall|j: int| 0 <= j < first_pos(s, c) ==> s[j] != c,
        first_pos(s, c) < s.len() ==> s[first_pos(s, c) as int] == c,
    decreases s.len(),
{
    if s.len() == 0 {
    } else if s[0] == c {
    } else {
        lemma_first_pos_bounds(s.drop_first(), c);
        assert forall|j: int| 0 <= j < first_pos(s, c) implies s[j] != c by {
            if j > 0 {
                assert(s.drop_first()[j - 1] != c);
            }
        }
    }
}

/// Any index bounded by the length, preceded by no `c`, and either equal to
/// the length or holding `c`, is `first_pos`.
pub proof fn lemma_first_pos_is(s: Seq<char>, c: char, p: int)
    requires
        0 <= p <= s.len(),
        forall|j: int| 0 <= j < p ==> s[j] != c,
        p < s.len() ==> s[p] == c,
    ensures
        first_pos(s, c) == p,
    decreases s.len(),
{
    if s.len() == 0 {
    } else if s[0] == c {
        assert(p == 0);
    } else {
        assert(p >= 1);
        assert forall|j: int| 0 <= j < p - 1 implies s.drop_first()[j] != c by {
            assert(s[j + 1] != c);
        }
        lemma_first_pos_is(s.drop_first(), c, p - 1);
    }
}

/// The prefix of `s` up to (not through) the first occurrence of `c`; the
/// whole of `s` if `c` does not occur.
pub open spec fn prefix_before(s: Seq<char>, c: char) -> Seq<char> {
    s.subrange(0, first_pos(s, c) as int)
}

/// `s` split on every occurrence of `c`: the sequence of (possibly empty)
/// segments between separators. Never empty; a string without `c` is a
/// single segment.
pub open spec fn split_on(s: Seq<char>, c: char) -> Seq<Seq<char>>
    decreases s.len(),
    via split_on_decreases
{
    let p = first_pos(s, c) as int;
    if p == s.len() {
        seq![s]
    } else {
        seq![s.subrange(0, p)] + split_on(s.subrange(p + 1, s.len() as int), c)
    }
}

#[via_fn]
proof fn split_on_decreases(s: Seq<char>, c: char) {
    lemma_first_pos_bounds(s, c);
}

/// The index of the first occurrence of `c` in `s`, or the character count
/// of `s` if `c` does not occur.
pub fn find_first(s: &str, c: char) -> (r: usize)
    ensures
        r as nat == first_pos(s@, c),
{
    let n: usize = s.unicode_len();
    let mut i: usize = 0;
    while i < n
        invariant
            0 <= i <= n,
            n as nat == s@.len(),
            forall|j: int| 0 <= j < i ==> s@[j] != c,
        decreases n - i,
    {
        if s.get_char(i) == c {
            proof {
                lemma_first_pos_is(s@, c, i as int);
            }
            return i;
        }
        i = i + 1;
    }
    proof {
        lemma_first_pos_is(s@, c, i as int);
    }
    i
}

/// The prefix of `s` before the first occurrence of `c`, as a borrowed
/// substring; all of `s` if `c` does not occur.
pub fn prefix_before_char<'a>(s: &'a str, c: char) -> (r: &'a str)
    ensures
        r@ == prefix_before(s@, c),
{
    let p = find_first(s, c);
    proof {
        lemma_first_pos_bounds(s@, c);
    }
    s.substring_char(0, p)
}

/// `s` split on every occurrence of `c`, as owned segments.
pub fn split_char(s: &str, c: char) -> (r: Vec<String>)
    ensures
        r.deep_view() == split_on(s@, c),
    decreases s@.len(),
{
    let n: usize = s.unicode_len();
    let p = find_first(s, c);
    proof {
        lemma_first_pos_bounds(s@, c);
    }
    if p == n {
        let mut parts: Vec<String> = Vec::new();
        parts.push(String::from_str(s));
        proof {
            assert(parts.deep_view() =~= split_on(s@, c));
        }
        parts
    } else {
        let head = s.substring_char(0, p);
        let tail = s.substring_char(p + 1, n);
        let mut parts = split_char(tail, c);
        let ghost rest: Seq<Seq<char>> = parts.deep_view();
        let ghost rest_vec: Seq<String> = parts@;
        parts.insert(0, String::from_str(head));
        proof {
            assert forall|i: int| 0 < i < parts@.len() implies parts@[i]@ == rest[i - 1] by {
                assert(parts@[i] == rest_vec[i - 1]);
            }
            assert(parts.deep_view() =~= split_on(s@, c));
        }
        parts
    }
}

} // verus!
