//! Character scanning: token search and digit runs over a line of text.
//!
//! This is the engine behind port discovery and the event-stream framing:
//! finding the first occurrence of a token, finding a token followed by a
//! number, and reading the number off.
use vstd::prelude::*;

verus! {

/// Is `c` a decimal digit?
pub open spec fn is_digit(c: char) -> bool {
    '0' <= c && c <= '9'
}

/// The value of one decimal digit character.
pub open spec fn digit_val(c: char) -> int
    recommends
        is_digit(c),
{
    c as int - '0' as int
}

/// Does `tok` occur in `s` starting at index `i`?
pub open spec fn matches_at(s: Seq<char>, tok: Seq<char>, i: int) -> bool {
    &&& 0 <= i
    &&& i + tok.len() <= s.len()
    &&& s.subrange(i, i + tok.len() as int) == tok
}

/// The least index at or after `from` where `tok` occurs, if any.
pub open spec fn first_occurrence_from(s: Seq<char>, tok: Seq<char>, from: int) -> Option<int>
    decreases s.len() - from,
{
    if from < 0 || from > s.len() {
        None
    } else if matches_at(s, tok, from) {
        Some(from)
    } else if from == s.len() {
        None
    } else {
        first_occurrence_from(s, tok, from + 1)
    }
}

/// The least index where `tok` occurs in `s`, if any.
pub open spec fn first_occurrence(s: Seq<char>, tok: Seq<char>) -> Option<int> {
    first_occurrence_from(s, tok, 0)
}

/// Does `tok` occur at `i`, immediately followed by a digit?
pub open spec fn anchor_at(s: Seq<char>, tok: Seq<char>, i: int) -> bool {
    &&& matches_at(s, tok, i)
    &&& i + tok.len() < s.len()
    &&& is_digit(s[i + tok.len() as int])
}

/// The least index at or after `from` where `tok` occurs immediately
/// followed by a digit, if any.
pub open spec fn first_anchor_from(s: Seq<char>, tok: Seq<char>, from: int) -> Option<int>
    decreases s.len() - from,
{
    if from < 0 || from > s.len() {
        None
    } else if anchor_at(s, tok, from) {
        Some(from)
    } else if from == s.len() {
        None
    } else {
        first_anchor_from(s, tok, from + 1)
    }
}

/// The least index at or after `from` holding a digit, if any.
pub open spec fn first_digit_from(s: Seq<char>, from: int) -> Option<int>
    decreases s.len() - from,
{
    if from < 0 || from >= s.len() {
        None
    } else if is_digit(s[from]) {
        Some(from)
    } else {
        first_digit_from(s, from + 1)
    }
}

/// The index just past the run of digits that starts at `i`.
pub open spec fn digit_run_end(s: Seq<char>, i: int) -> int
    decreases s.len() - i,
{
    if 0 <= i && i < s.len() && is_digit(s[i]) {
        digit_run_end(s, i + 1)
    } else {
        i
    }
}

/// The numeric value of the digits `s[i..j]`.
pub open spec fn digits_val(s: Seq<char>, i: int, j: int) -> int
    decreases j - i,
{
    if j <= i {
        0
    } else {
        digits_val(s, i, j - 1) * 10 + digit_val(s[j - 1])
    }
}

proof fn lemma_digits_val_nonneg(s: Seq<char>, i: int, j: int)
    requires
        forall|k: int| i <= k < j && 0 <= k < s.len() ==> is_digit(s[k]),
        0 <= i,
        j <= s.len(),
    ensures
        digits_val(s, i, j) >= 0,
    decreases j - i,
{
    if j > i {
        lemma_digits_val_nonneg(s, i, j - 1);
    }
}

proof fn lemma_digits_val_mono(s: Seq<char>, i: int, j: int, e: int)
    requires
        forall|k: int| i <= k < e && 0 <= k < s.len() ==> is_digit(s[k]),
        0 <= i <= j <= e,
        e <= s.len(),
    ensures
        digits_val(s, i, e) >= digits_val(s, i, j),
    decreases e - j,
{
    if e > j {
        lemma_digits_val_mono(s, i, j, e - 1);
        lemma_digits_val_nonneg(s, i, e - 1);
        assert(digits_val(s, i, e) == digits_val(s, i, e - 1) * 10 + digit_val(s[e - 1]));
    }
}

proof fn lemma_run_end_skip(s: Seq<char>, i: int, j: int)
    requires
        0 <= i <= j <= s.len(),
        forall|k: int| i <= k < j ==> is_digit(s[k]),
    ensures
        digit_run_end(s, i) == digit_run_end(s, j),
    decreases j - i,
{
    if i < j {
        lemma_run_end_skip(s, i + 1, j);
    }
}

pub proof fn lemma_first_occurrence_sound(s: Seq<char>, tok: Seq<char>, from: int)
    ensures
        first_occurrence_from(s, tok, from) matches Some(i) ==> matches_at(s, tok, i) && from
            <= i,
    decreases s.len() - from,
{
    if from < 0 || from > s.len() {
    } else if matches_at(s, tok, from) {
    } else if from == s.len() {
    } else {
        lemma_first_occurrence_sound(s, tok, from + 1);
    }
}

pub proof fn lemma_first_anchor_sound(s: Seq<char>, tok: Seq<char>, from: int)
    ensures
        first_anchor_from(s, tok, from) matches Some(i) ==> anchor_at(s, tok, i) && from <= i,
    decreases s.len() - from,
{
    if from < 0 || from > s.len() {
    } else if anchor_at(s, tok, from) {
    } else if from == s.len() {
    } else {
        lemma_first_anchor_sound(s, tok, from + 1);
    }
}

pub proof fn lemma_first_digit_sound(s: Seq<char>, from: int)
    ensures
        first_digit_from(s, from) matches Some(i) ==> 0 <= i < s.len() && is_digit(s[i]) && from
            <= i,
    decreases s.len() - from,
{
    if from < 0 || from >= s.len() {
    } else if is_digit(s[from]) {
    } else {
        lemma_first_digit_sound(s, from + 1);
    }
}

/// A first occurrence in `s` is still the first occurrence after more text
/// is appended.
pub proof fn lemma_first_occurrence_append(s: Seq<char>, tok: Seq<char>, b: Seq<char>, from: int)
    requires
        first_occurrence_from(s, tok, from) is Some,
    ensures
        first_occurrence_from(s + b, tok, from) == first_occurrence_from(s, tok, from),
    decreases s.len() - from,
{
    lemma_first_occurrence_sound(s, tok, from);
    let i = first_occurrence_from(s, tok, from)->Some_0;
    assert(matches_at(s, tok, i) && from <= i);
    assert(from + tok.len() <= s.len());
    if matches_at(s, tok, from) {
        assert((s + b).subrange(from, from + tok.len() as int) =~= s.subrange(
            from,
            from + tok.len() as int,
        ));
        assert(matches_at(s + b, tok, from));
    } else {
        if from + tok.len() <= s.len() {
            assert((s + b).subrange(from, from + tok.len() as int) =~= s.subrange(
                from,
                from + tok.len() as int,
            ));
        }
        assert(!matches_at(s + b, tok, from));
        lemma_first_occurrence_append(s, tok, b, from + 1);
    }
}

/// Are two strings equal, character for character?
pub fn str_eq(a: &str, b: &str) -> (r: bool)
    ensures
        r == (a@ == b@),
{
    let n = a.unicode_len();
    let m = b.unicode_len();
    if n != m {
        return false;
    }
    let mut i: usize = 0;
    while i < n
        invariant
            i <= n,
            n == a@.len(),
            n == b@.len(),
            forall|k: int| 0 <= k < i ==> a@[k] == b@[k],
        decreases n - i,
    {
        if a.get_char(i) != b.get_char(i) {
            return false;
        }
        i += 1;
    }
    proof {
        assert(a@ =~= b@);
    }
    true
}

/// Does `tok` occur in `s` starting at `i`?  Character-by-character check.
pub fn str_matches_at(s: &str, tok: &str, i: usize, toklen: usize) -> (r: bool)
    requires
        toklen == tok@.len(),
        i + toklen <= s@.len(),
    ensures
        r == matches_at(s@, tok@, i as int),
{
    let n = s.unicode_len();
    let mut j: usize = 0;
    while j < toklen
        invariant
            j <= toklen,
            toklen == tok@.len(),
            n == s@.len(),
            i + toklen <= s@.len(),
            forall|k: int| 0 <= k < j ==> s@[i + k] == tok@[k],
        decreases toklen - j,
    {
        if s.get_char(i + j) != tok.get_char(j) {
            proof {
                assert(s@.subrange(i as int, i + toklen as int)[j as int] == s@[i + j]);
            }
            return false;
        }
        j += 1;
    }
    proof {
        assert(s@.subrange(i as int, i + toklen as int) =~= tok@);
    }
    true
}

/// The first occurrence of `tok` in `s`, if any.
pub fn find_token(s: &str, tok: &str) -> (r: Option<usize>)
    ensures
        match r {
            Some(i) => first_occurrence(s@, tok@) == Some(i as int),
            None => first_occurrence(s@, tok@) is None,
        },
{
    let n = s.unicode_len();
    let toklen = tok.unicode_len();
    let mut i: usize = 0;
    while i < n
        invariant
            i <= n,
            n == s@.len(),
            toklen == tok@.len(),
            first_occurrence(s@, tok@) == first_occurrence_from(s@, tok@, i as int),
        decreases n - i,
    {
        if toklen <= n - i {
            if str_matches_at(s, tok, i, toklen) {
                return Some(i);
            }
        }
        i += 1;
    }
    if toklen == 0 {
        proof {
            assert(s@.subrange(n as int, n as int) =~= tok@);
        }
        return Some(n);
    }
    None
}

/// The first occurrence of `tok` immediately followed by a digit, if any.
pub fn find_anchor(s: &str, tok: &str) -> (r: Option<usize>)
    ensures
        match r {
            Some(i) => first_anchor_from(s@, tok@, 0) == Some(i as int),
            None => first_anchor_from(s@, tok@, 0) is None,
        },
{
    let n = s.unicode_len();
    let toklen = tok.unicode_len();
    let mut i: usize = 0;
    while i < n
        invariant
            i <= n,
            n == s@.len(),
            toklen == tok@.len(),
            first_anchor_from(s@, tok@, 0) == first_anchor_from(s@, tok@, i as int),
        decreases n - i,
    {
        if toklen < n - i {
            if str_matches_at(s, tok, i, toklen) {
                if is_digit_exec(s.get_char(i + toklen)) {
                    return Some(i);
                }
            }
        }
        i += 1;
    }
    None
}

/// The first digit at or after `from`, if any.
pub fn find_digit_from(s: &str, from: usize) -> (r: Option<usize>)
    requires
        from <= s@.len(),
    ensures
        match r {
            Some(i) => first_digit_from(s@, from as int) == Some(i as int),
            None => first_digit_from(s@, from as int) is None,
        },
{
    let n = s.unicode_len();
    let mut i: usize = from;
    while i < n
        invariant
            from <= i <= n,
            n == s@.len(),
            first_digit_from(s@, from as int) == first_digit_from(s@, i as int),
        decreases n - i,
    {
        if is_digit_exec(s.get_char(i)) {
            return Some(i);
        }
        i += 1;
    }
    None
}

/// Is `c` a decimal digit?
pub fn is_digit_exec(c: char) -> (r: bool)
    ensures
        r == is_digit(c),
{
    '0' <= c && c <= '9'
}

/// Reads the digit run starting at `start` as a number, if it fits a port.
pub fn parse_port_run(s: &str, start: usize) -> (r: Option<u16>)
    requires
        start <= s@.len(),
    ensures
        ({
            let e = digit_run_end(s@, start as int);
            let v = digits_val(s@, start as int, e);
            match r {
                Some(p) => v == p as int,
                None => v > 65535,
            }
        }),
{
    let n = s.unicode_len();
    let mut i: usize = start;
    let mut acc: u32 = 0;
    loop
        invariant
            start <= i <= n,
            n == s@.len(),
            acc <= 65535,
            acc as int == digits_val(s@, start as int, i as int),
            forall|k: int| start <= k < i ==> is_digit(s@[k]),
        decreases n - i,
    {
        if i == n || !is_digit_exec(s.get_char(i)) {
            proof {
                lemma_run_end_skip(s@, start as int, i as int);
            }
            return Some(acc as u16);
        }
        let c = s.get_char(i);
        let d: u32 = (c as u32) - ('0' as u32);
        let acc2: u32 = acc * 10 + d;
        if acc2 > 65535 {
            proof {
                let e = digit_run_end(s@, start as int);
                lemma_run_end_skip(s@, start as int, i as int);
                assert(digit_run_end(s@, i as int) == digit_run_end(s@, i + 1));
                lemma_run_end_skip(s@, start as int, i + 1);
                assert(e == digit_run_end(s@, i + 1));
                assert(e >= i + 1) by {
                    lemma_run_end_at_least(s@, i + 1);
                }
                assert(digits_val(s@, start as int, i + 1) == acc2 as int);
                lemma_run_digits(s@, i + 1);
                lemma_run_end_at_most(s@, i + 1);
                lemma_digits_val_mono(s@, start as int, i + 1, e);
            }
            return None;
        }
        acc = acc2;
        i += 1;
    }
}

proof fn lemma_run_digits(s: Seq<char>, i: int)
    ensures
        forall|k: int| i <= k < digit_run_end(s, i) ==> is_digit(s[k]),
    decreases s.len() - i,
{
    if 0 <= i && i < s.len() && is_digit(s[i]) {
        lemma_run_digits(s, i + 1);
        lemma_run_end_at_least(s, i + 1);
    }
}

proof fn lemma_run_end_at_least(s: Seq<char>, i: int)
    ensures
        digit_run_end(s, i) >= i,
    decreases s.len() - i,
{
    if 0 <= i && i < s.len() && is_digit(s[i]) {
        lemma_run_end_at_least(s, i + 1);
    }
}

proof fn lemma_run_end_at_most(s: Seq<char>, i: int)
    requires
        i <= s.len(),
    ensures
        digit_run_end(s, i) <= s.len(),
    decreases s.len() - i,
{
    if 0 <= i && i < s.len() && is_digit(s[i]) {
        lemma_run_end_at_most(s, i + 1);
    }
}

} // verus!
