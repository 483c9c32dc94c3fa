//! Character and string helpers shared by the configuration parser and the
//! identifier validation: whitespace trimming and string equality, specified
//! over the character sequences the strings view to.

use vstd::prelude::*;

verus! {

/// Whether a character has the Unicode `White_Space` property, as
/// `char::is_whitespace` decides it. The full property table is not restated
/// here; the name stands for whatever std returns, a pure function of the
/// character.
pub uninterp spec fn unicode_whitespace(c: char) -> bool;

/// Relies on std's `char::is_whitespace`: true exactly when the character has
/// the Unicode `White_Space` property; a pure function of the character.
pub assume_specification[ char::is_whitespace ](c: char) -> (r: bool)
    ensures
        r == unicode_whitespace(c),
;

/// The first index at or after `i` holding a non-whitespace character, or the
/// length of `s` if there is none.
pub open spec fn scan_start(s: Seq<char>, i: int) -> int
    decreases s.len() - i,
{
    if i < 0 || i >= s.len() {
        s.len() as int
    } else if unicode_whitespace(s[i]) {
        scan_start(s, i + 1)
    } else {
        i
    }
}

/// One past the last index before `j` holding a non-whitespace character, or
/// zero if there is none.
pub open spec fn scan_end(s: Seq<char>, j: int) -> int
    decreases j,
{
    if j <= 0 || j > s.len() {
        0
    } else if unicode_whitespace(s[j - 1]) {
        scan_end(s, j - 1)
    } else {
        j
    }
}

/// `s` with leading and trailing whitespace removed.
pub open spec fn spec_trim(s: Seq<char>) -> Seq<char> {
    let a = scan_start(s, 0);
    let b = scan_end(s, s.len() as int);
    if a >= b {
        Seq::empty()
    } else {
        s.subrange(a, b)
    }
}

proof fn lemma_scan_start_bounds(s: Seq<char>, i: int)
    requires
        0 <= i <= s.len(),
    ensures
        i <= scan_start(s, i) <= s.len(),
        scan_start(s, i) < s.len() ==> !unicode_whitespace(s[scan_start(s, i)]),
    decreases s.len() - i,
{
    if i < s.len() && unicode_whitespace(s[i]) {
        lemma_scan_start_bounds(s, i + 1);
    }
}

proof fn lemma_scan_end_bounds(s: Seq<char>, j: int)
    requires
        0 <= j <= s.len(),
    ensures
        0 <= scan_end(s, j) <= j,
        scan_end(s, j) > 0 ==> !unicode_whitespace(s[scan_end(s, j) - 1]),
    decreases j,
{
    if j > 0 && unicode_whitespace(s[j - 1]) {
        lemma_scan_end_bounds(s, j - 1);
    }
}

/// The scan for the end of the trimmed region never passes a non-whitespace
/// character.
proof fn lemma_scan_end_stops(s: Seq<char>, j: int, a: int)
    requires
        0 <= a < j <= s.len(),
        !unicode_whitespace(s[a]),
    ensures
        a < scan_end(s, j),
    decreases j,
{
    if unicode_whitespace(s[j - 1]) {
        lemma_scan_end_stops(s, j - 1, a);
    }
}

/// Returns `s` with leading and trailing whitespace removed.
pub fn trim_str(s: &str) -> (r: &str)
    ensures
        r@ == spec_trim(s@),
{
    let n = s.unicode_len();
    let mut a: usize = 0;
    while a < n && s.get_char(a).is_whitespace()
        invariant
            0 <= a <= n,
            n == s@.len(),
            scan_start(s@, 0) == scan_start(s@, a as int),
        decreases n - a,
    {
        a = a + 1;
    }
    proof {
        lemma_scan_start_bounds(s@, a as int);
    }
    if a == n {
        let r = "";
        proof {
            reveal_strlit("");
            lemma_scan_end_bounds(s@, s@.len() as int);
            assert(r@ =~= spec_trim(s@));
        }
        return r;
    }
    let mut b: usize = n;
    while s.get_char(b - 1).is_whitespace()
        invariant
            a < b <= n,
            n == s@.len(),
            !unicode_whitespace(s@[a as int]),
            scan_end(s@, n as int) == scan_end(s@, b as int),
        decreases b,
    {
        proof {
            lemma_scan_end_stops(s@, b as int, a as int);
            lemma_scan_end_bounds(s@, b as int);
        }
        b = b - 1;
    }
    proof {
        lemma_scan_end_stops(s@, b as int, a as int);
    }
    s.substring_char(a, b)
}

/// Whether `s` is empty or holds only whitespace.
pub fn is_blank(s: &str) -> (r: bool)
    ensures
        r == (spec_trim(s@).len() == 0),
{
    trim_str(s).is_empty()
}

/// The first index at or after `i` where `c` occurs in `s`, or the length of
/// `s` if it does not occur there.
pub open spec fn find_char(s: Seq<char>, i: int, c: char) -> int
    decreases s.len() - i,
{
    if i < 0 || i >= s.len() {
        s.len() as int
    } else if s[i] == c {
        i
    } else {
        find_char(s, i + 1, c)
    }
}

/// The index `find_char` returns lies between its starting point and the end
/// of the sequence.
pub proof fn lemma_find_char_bounds(s: Seq<char>, i: int, c: char)
    requires
        0 <= i <= s.len(),
    ensures
        i <= find_char(s, i, c) <= s.len(),
    decreases s.len() - i,
{
    if i < s.len() && s[i] != c {
        lemma_find_char_bounds(s, i + 1, c);
    }
}

/// Returns the first index at or after `start` where `c` occurs in `s`, or
/// the length of `s` if it does not occur there.
pub fn find_char_from(s: &str, start: usize, c: char) -> (r: usize)
    requires
        start <= s@.len(),
    ensures
        r as int == find_char(s@, start as int, c),
        start <= r <= s@.len(),
        r < s@.len() ==> s@[r as int] == c,
{
    let n = s.unicode_len();
    let mut j = start;
    while j < n && s.get_char(j) != c
        invariant
            start <= j <= n,
            n == s@.len(),
            find_char(s@, start as int, c) == find_char(s@, j as int, c),
        decreases n - j,
    {
        j = j + 1;
    }
    j
}

/// Character-for-character string equality.
pub fn str_eq(a: &str, b: &str) -> (r: bool)
    ensures
        r == (a@ == b@),
{
    let n = a.unicode_len();
    if n != b.unicode_len() {
        return false;
    }
    let mut i: usize = 0;
    while i < n
        invariant
            0 <= i <= n,
            n == a@.len(),
            n == b@.len(),
            forall|k: int| 0 <= k < i ==> a@[k] == b@[k],
        decreases n - i,
    {
        if a.get_char(i) != b.get_char(i) {
            return false;
        }
        i = i + 1;
    }
    proof {
        assert(a@ =~= b@);
    }
    true
}

} // verus!
