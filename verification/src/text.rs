//! Character-level text scanning: literal search, character-class runs and
//! digit parsing.  The report format of the external provisioning tool is a
//! fixed textual grammar; the extractors in the action modules are built
//! from these primitives.

use vstd::prelude::*;

verus! {

/// An ASCII decimal digit `0`..=`9`.
pub open spec fn is_digit(c: char) -> bool {
    48 <= c as u32 && c as u32 <= 57
}

/// A whitespace character: space, tab, line feed, vertical tab, form feed
/// or carriage return.
pub open spec fn is_space(c: char) -> bool {
    c as u32 == 32 || (9 <= c as u32 && c as u32 <= 13)
}

/// An ASCII capital letter `A`..=`Z`.
pub open spec fn is_upper(c: char) -> bool {
    65 <= c as u32 && c as u32 <= 90
}

/// A character allowed inside an extracted URL: anything but whitespace,
/// a double quote or a backslash.
pub open spec fn is_url_char(c: char) -> bool {
    !is_space(c) && c as u32 != 34 && c as u32 != 92
}

/// A character of an access token: ASCII letter, digit or underscore.
pub open spec fn is_word_char(c: char) -> bool {
    is_digit(c) || is_upper(c) || (97 <= c as u32 && c as u32 <= 122) || c as u32 == 95
}

/// The pattern `p` occurs in `t` starting at index `i`.
pub open spec fn match_at(t: Seq<char>, p: Seq<char>, i: int) -> bool {
    0 <= i && i + p.len() <= t.len() && t.subrange(i, i + p.len()) == p
}

/// Index of the first occurrence of `p` in `t` at or after index `i`.
pub open spec fn find_from(t: Seq<char>, p: Seq<char>, i: int) -> Option<int>
    decreases t.len() + 1 - i,
{
    if i + p.len() > t.len() {
        None
    } else if match_at(t, p, i) {
        Some(i)
    } else {
        find_from(t, p, i + 1)
    }
}

/// A found occurrence is a real occurrence, and the first one at or after
/// the start of the search.
pub proof fn lemma_find_from_some(t: Seq<char>, p: Seq<char>, j: int, i: int)
    requires
        find_from(t, p, j) == Some(i),
    ensures
        j <= i,
        match_at(t, p, i),
        forall|k: int| j <= k < i ==> !match_at(t, p, k),
    decreases t.len() + 1 - j,
{
    if j + p.len() > t.len() {
    } else if match_at(t, p, j) {
    } else {
        lemma_find_from_some(t, p, j + 1, i);
    }
}

/// A failed search means no occurrence at or after the start.
pub proof fn lemma_find_from_none(t: Seq<char>, p: Seq<char>, j: int)
    requires
        find_from(t, p, j) is None,
    ensures
        forall|k: int| j <= k ==> !match_at(t, p, k),
    decreases t.len() + 1 - j,
{
    if j + p.len() > t.len() {
    } else if match_at(t, p, j) {
    } else {
        lemma_find_from_none(t, p, j + 1);
    }
}

/// The pattern `p` occurs somewhere in `t`.
pub open spec fn contains_seq(t: Seq<char>, p: Seq<char>) -> bool {
    find_from(t, p, 0) is Some
}

/// End of the run of decimal digits starting at index `i` of `t`: the first
/// index at or after `i` holding no digit.
pub open spec fn digit_run_end(t: Seq<char>, i: int) -> int
    decreases t.len() - i,
{
    if i < t.len() && is_digit(t[i]) {
        digit_run_end(t, i + 1)
    } else {
        i
    }
}

/// End of the run of whitespace characters starting at index `i` of `t`.
pub open spec fn space_run_end(t: Seq<char>, i: int) -> int
    decreases t.len() - i,
{
    if i < t.len() && is_space(t[i]) {
        space_run_end(t, i + 1)
    } else {
        i
    }
}

/// End of the run of capital letters starting at index `i` of `t`.
pub open spec fn upper_run_end(t: Seq<char>, i: int) -> int
    decreases t.len() - i,
{
    if i < t.len() && is_upper(t[i]) {
        upper_run_end(t, i + 1)
    } else {
        i
    }
}

/// End of the run of URL characters starting at index `i` of `t`.
pub open spec fn url_run_end(t: Seq<char>, i: int) -> int
    decreases t.len() - i,
{
    if i < t.len() && is_url_char(t[i]) {
        url_run_end(t, i + 1)
    } else {
        i
    }
}

/// End of the run of word characters starting at index `i` of `t`.
pub open spec fn word_run_end(t: Seq<char>, i: int) -> int
    decreases t.len() - i,
{
    if i < t.len() && is_word_char(t[i]) {
        word_run_end(t, i + 1)
    } else {
        i
    }
}

/// The digit run starting at `i` ends between `i` and the end of `t`, holds
/// digits only, and stops at the first non-digit.
pub proof fn lemma_digit_run(t: Seq<char>, i: int)
    requires
        0 <= i <= t.len(),
    ensures
        i <= digit_run_end(t, i) <= t.len(),
        forall|j: int| i <= j < digit_run_end(t, i) ==> is_digit(t[j]),
        digit_run_end(t, i) < t.len() ==> !is_digit(t[digit_run_end(t, i)]),
    decreases t.len() - i,
{
    if i < t.len() && is_digit(t[i]) {
        lemma_digit_run(t, i + 1);
    }
}

/// Whether `c` is a decimal digit.
pub fn digit_char(c: char) -> (b: bool)
    ensures
        b == is_digit(c),
{
    let u = c as u32;
    48 <= u && u <= 57
}

/// Whether `c` is whitespace.
pub fn space_char(c: char) -> (b: bool)
    ensures
        b == is_space(c),
{
    let u = c as u32;
    u == 32 || (9 <= u && u <= 13)
}

/// Whether `c` is a capital letter.
pub fn upper_char(c: char) -> (b: bool)
    ensures
        b == is_upper(c),
{
    let u = c as u32;
    65 <= u && u <= 90
}

/// Whether `c` may stand inside an extracted URL.
pub fn url_char(c: char) -> (b: bool)
    ensures
        b == is_url_char(c),
{
    let u = c as u32;
    !(u == 32 || (9 <= u && u <= 13)) && u != 34 && u != 92
}

/// Whether `c` may stand inside an access token.
pub fn word_char(c: char) -> (b: bool)
    ensures
        b == is_word_char(c),
{
    let u = c as u32;
    (48 <= u && u <= 57) || (65 <= u && u <= 90) || (97 <= u && u <= 122) || u == 95
}

/// Whether `p` occurs in `t` starting exactly at index `i`.
pub fn check_match_at(t: &str, p: &str, i: usize) -> (r: bool)
    requires
        i as int + p@.len() <= t@.len(),
        t@.len() <= usize::MAX as int,
    ensures
        r == match_at(t@, p@, i as int),
{
    let n = p.unicode_len();
    let mut k: usize = 0;
    while k < n
        invariant
            n == p@.len(),
            k <= n,
            i as int + n as int <= t@.len(),
            t@.len() <= usize::MAX as int,
            forall|j: int| 0 <= j < k ==> t@[i as int + j] == p@[j],
        decreases n - k,
    {
        if t.get_char(i + k) != p.get_char(k) {
            proof {
                assert(t@.subrange(i as int, i as int + p@.len())[k as int] == t@[i as int
                    + k as int]);
            }
            return false;
        }
        k += 1;
    }
    proof {
        assert(t@.subrange(i as int, i as int + p@.len()) =~= p@);
    }
    true
}

/// First occurrence of the literal pattern `p` in `t`, scanning from the
/// start.
pub fn find(t: &str, p: &str) -> (r: Option<usize>)
    ensures
        match r {
            Some(i) => find_from(t@, p@, 0) == Some(i as int),
            None => find_from(t@, p@, 0) is None,
        },
{
    let tn = t.unicode_len();
    let pn = p.unicode_len();
    if pn > tn {
        return None;
    }
    if pn == 0 {
        proof {
            assert(t@.subrange(0, 0) =~= p@);
        }
        return Some(0);
    }
    let mut i: usize = 0;
    while i <= tn - pn
        invariant
            tn == t@.len(),
            pn == p@.len(),
            1 <= pn <= tn,
            i <= tn - pn + 1,
            find_from(t@, p@, 0) == find_from(t@, p@, i as int),
        decreases tn - i,
    {
        if check_match_at(t, p, i) {
            return Some(i);
        }
        i += 1;
    }
    None
}

/// Whether the literal pattern `p` occurs anywhere in `t`.
pub fn contains_pattern(t: &str, p: &str) -> (r: bool)
    ensures
        r == contains_seq(t@, p@),
{
    find(t, p).is_some()
}

/// End of the digit run of `t` starting at index `from`.
pub fn scan_digits(t: &str, from: usize) -> (e: usize)
    requires
        from as int <= t@.len(),
        t@.len() <= usize::MAX as int,
    ensures
        e as int == digit_run_end(t@, from as int),
        from <= e,
        e as int <= t@.len(),
{
    let n = t.unicode_len();
    let mut j: usize = from;
    loop
        invariant
            n == t@.len(),
            from <= j <= n,
            t@.len() <= usize::MAX as int,
            digit_run_end(t@, from as int) == digit_run_end(t@, j as int),
        ensures
            from <= j <= n,
            j as int == digit_run_end(t@, from as int),
        decreases n - j,
    {
        if j == n {
            break;
        }
        if !digit_char(t.get_char(j)) {
            break;
        }
        j += 1;
    }
    j
}

/// End of the whitespace run of `t` starting at index `from`.
pub fn scan_spaces(t: &str, from: usize) -> (e: usize)
    requires
        from as int <= t@.len(),
        t@.len() <= usize::MAX as int,
    ensures
        e as int == space_run_end(t@, from as int),
        from <= e,
        e as int <= t@.len(),
{
    let n = t.unicode_len();
    let mut j: usize = from;
    loop
        invariant
            n == t@.len(),
            from <= j <= n,
            t@.len() <= usize::MAX as int,
            space_run_end(t@, from as int) == space_run_end(t@, j as int),
        ensures
            from <= j <= n,
            j as int == space_run_end(t@, from as int),
        decreases n - j,
    {
        if j == n {
            break;
        }
        if !space_char(t.get_char(j)) {
            break;
        }
        j += 1;
    }
    j
}

/// End of the capital-letter run of `t` starting at index `from`.
pub fn scan_uppers(t: &str, from: usize) -> (e: usize)
    requires
        from as int <= t@.len(),
        t@.len() <= usize::MAX as int,
    ensures
        e as int == upper_run_end(t@, from as int),
        from <= e,
        e as int <= t@.len(),
{
    let n = t.unicode_len();
    let mut j: usize = from;
    loop
        invariant
            n == t@.len(),
            from <= j <= n,
            t@.len() <= usize::MAX as int,
            upper_run_end(t@, from as int) == upper_run_end(t@, j as int),
        ensures
            from <= j <= n,
            j as int == upper_run_end(t@, from as int),
        decreases n - j,
    {
        if j == n {
            break;
        }
        if !upper_char(t.get_char(j)) {
            break;
        }
        j += 1;
    }
    j
}

/// End of the URL-character run of `t` starting at index `from`.
pub fn scan_url_chars(t: &str, from: usize) -> (e: usize)
    requires
        from as int <= t@.len(),
        t@.len() <= usize::MAX as int,
    ensures
        e as int == url_run_end(t@, from as int),
        from <= e,
        e as int <= t@.len(),
{
    let n = t.unicode_len();
    let mut j: usize = from;
    loop
        invariant
            n == t@.len(),
            from <= j <= n,
            t@.len() <= usize::MAX as int,
            url_run_end(t@, from as int) == url_run_end(t@, j as int),
        ensures
            from <= j <= n,
            j as int == url_run_end(t@, from as int),
        decreases n - j,
    {
        if j == n {
            break;
        }
        if !url_char(t.get_char(j)) {
            break;
        }
        j += 1;
    }
    j
}

/// End of the word-character run of `t` starting at index `from`.
pub fn scan_word_chars(t: &str, from: usize) -> (e: usize)
    requires
        from as int <= t@.len(),
        t@.len() <= usize::MAX as int,
    ensures
        e as int == word_run_end(t@, from as int),
        from <= e,
        e as int <= t@.len(),
{
    let n = t.unicode_len();
    let mut j: usize = from;
    loop
        invariant
            n == t@.len(),
            from <= j <= n,
            t@.len() <= usize::MAX as int,
            word_run_end(t@, from as int) == word_run_end(t@, j as int),
        ensures
            from <= j <= n,
            j as int == word_run_end(t@, from as int),
        decreases n - j,
    {
        if j == n {
            break;
        }
        if !word_char(t.get_char(j)) {
            break;
        }
        j += 1;
    }
    j
}

/// The number a digit sequence denotes in base ten, most significant digit
/// first.
pub open spec fn digits_value(s: Seq<char>) -> int
    decreases s.len(),
{
    if s.len() == 0 {
        0
    } else {
        digits_value(s.drop_last()) * 10 + (s.last() as u32 - 48)
    }
}

/// A value denoted by digits is never negative.
pub proof fn lemma_digits_value_nonneg(s: Seq<char>)
    requires
        forall|j: int| 0 <= j < s.len() ==> is_digit(s[j]),
    ensures
        digits_value(s) >= 0,
    decreases s.len(),
{
    if s.len() > 0 {
        assert(forall|j: int| 0 <= j < s.drop_last().len() ==> s.drop_last()[j] == s[j]);
        lemma_digits_value_nonneg(s.drop_last());
    }
}

/// Appending digits never shrinks the denoted value.
pub proof fn lemma_digits_value_extend(s: Seq<char>, k: int)
    requires
        forall|j: int| 0 <= j < s.len() ==> is_digit(s[j]),
        0 <= k <= s.len(),
    ensures
        digits_value(s.take(k)) <= digits_value(s),
    decreases s.len() - k,
{
    if k < s.len() {
        lemma_digits_value_extend(s, k + 1);
        let p = s.take(k + 1);
        assert(p.drop_last() =~= s.take(k));
        assert(forall|j: int| 0 <= j < p.len() ==> p[j] == s[j]);
        lemma_digits_value_nonneg(s.take(k));
        assert(digits_value(p) == digits_value(s.take(k)) * 10 + (p.last() as u32 - 48));
    } else {
        assert(s.take(k) =~= s);
    }
}

/// Parses a run of decimal digits as an `i32`.  Returns `None` exactly when
/// the denoted value exceeds `i32::MAX`.
pub fn parse_digits(t: &str) -> (r: Option<i32>)
    requires
        forall|j: int| 0 <= j < t@.len() ==> is_digit(t@[j]),
    ensures
        match r {
            Some(v) => v as int == digits_value(t@) && digits_value(t@) <= i32::MAX as int,
            None => digits_value(t@) > i32::MAX as int,
        },
{
    let n = t.unicode_len();
    let mut acc: i32 = 0;
    let mut j: usize = 0;
    while j < n
        invariant
            n == t@.len(),
            j <= n,
            forall|k: int| 0 <= k < t@.len() ==> is_digit(t@[k]),
            acc as int == digits_value(t@.take(j as int)),
            0 <= acc,
        decreases n - j,
    {
        let c = t.get_char(j);
        let d = c as u32 - 48;
        proof {
            assert(t@.take(j as int + 1).drop_last() =~= t@.take(j as int));
            assert(t@.take(j as int + 1).last() == t@[j as int]);
        }
        if acc > (i32::MAX - d as i32) / 10 {
            proof {
                lemma_digits_value_extend(t@, j as int + 1);
                lemma_digits_value_nonneg(t@.take(j as int + 1));
            }
            return None;
        }
        acc = acc * 10 + d as i32;
        j += 1;
    }
    proof {
        assert(t@.take(n as int) =~= t@);
    }
    Some(acc)
}

} // verus!
