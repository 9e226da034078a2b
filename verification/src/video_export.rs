//! Reading the output of the video encoder: progress lines on its standard
//! output and warnings or errors on its standard error.

use vstd::prelude::*;

verus! {

/// Characters with the Unicode `White_Space` property (`char::is_whitespace`).
pub open spec fn is_whitespace(c: char) -> bool {
    ||| ('\u{9}' <= c && c <= '\u{d}')
    ||| c == ' '
    ||| c == '\u{85}'
    ||| c == '\u{a0}'
    ||| c == '\u{1680}'
    ||| ('\u{2000}' <= c && c <= '\u{200a}')
    ||| c == '\u{2028}'
    ||| c == '\u{2029}'
    ||| c == '\u{202f}'
    ||| c == '\u{205f}'
    ||| c == '\u{3000}'
}

pub fn char_is_whitespace(c: char) -> (r: bool)
    ensures
        r == is_whitespace(c),
{
    ('\u{9}' <= c && c <= '\u{d}') || c == ' ' || c == '\u{85}' || c == '\u{a0}' || c
        == '\u{1680}' || ('\u{2000}' <= c && c <= '\u{200a}') || c == '\u{2028}' || c
        == '\u{2029}' || c == '\u{202f}' || c == '\u{205f}' || c == '\u{3000}'
}

/// Number of leading whitespace characters of `s`.
pub open spec fn leading_whitespace(s: Seq<char>) -> nat
    decreases s.len(),
{
    if s.len() > 0 && is_whitespace(s[0]) {
        1 + leading_whitespace(s.drop_first())
    } else {
        0
    }
}

/// Number of leading characters of `s` that are not whitespace.
pub open spec fn leading_word(s: Seq<char>) -> nat
    decreases s.len(),
{
    if s.len() > 0 && !is_whitespace(s[0]) {
        1 + leading_word(s.drop_first())
    } else {
        0
    }
}

/// The first whitespace-separated word of `s` (`split_whitespace().next()`).
pub open spec fn first_word(s: Seq<char>) -> Option<Seq<char>> {
    let rest = s.skip(leading_whitespace(s) as int);
    if rest.len() == 0 {
        None
    } else {
        Some(rest.take(leading_word(rest) as int))
    }
}

pub open spec fn is_digit(c: char) -> bool {
    '0' <= c && c <= '9'
}

/// The number written by a string of decimal digits.
pub open spec fn digits_value(s: Seq<char>) -> nat
    decreases s.len(),
{
    if s.len() == 0 {
        0
    } else {
        digits_value(s.drop_last()) * 10 + ((s.last() as nat) - ('0' as nat)) as nat
    }
}

/// The value of `s` as `u32::from_str` reads it: an optional `+`, then at least
/// one decimal digit and nothing else, the number fitting in 32 bits.
pub open spec fn parse_u32(s: Seq<char>) -> Option<u32> {
    let d = unsigned_digits(s);
    if d.len() > 0 && all_digits(d) && digits_value(d) <= u32::MAX {
        Some(digits_value(d) as u32)
    } else {
        None
    }
}

/// `s` without a leading `+`.
pub open spec fn unsigned_digits(s: Seq<char>) -> Seq<char> {
    if s.len() > 0 && s[0] == '+' {
        s.drop_first()
    } else {
        s
    }
}

/// Every character of `s` is a decimal digit.
pub open spec fn all_digits(s: Seq<char>) -> bool {
    forall|i: int| 0 <= i < s.len() ==> is_digit(#[trigger] s[i])
}

/// The characters of `s`.
fn chars_of(s: &str) -> (r: Vec<char>)
    ensures
        r@ == s@,
{
    let n = s.unicode_len();
    let mut r: Vec<char> = Vec::new();
    let mut i: usize = 0;
    while i < n
        invariant
            n == s@.len(),
            i <= n,
            r@ == s@.take(i as int),
        decreases n - i,
    {
        r.push(s.get_char(i));
        i = i + 1;
        assert(r@ =~= s@.take(i as int));
    }
    assert(s@.take(n as int) =~= s@);
    r
}

proof fn lemma_digits_value_monotone(s: Seq<char>, i: int)
    requires
        0 <= i <= s.len(),
        forall|j: int| 0 <= j < s.len() ==> is_digit(#[trigger] s[j]),
    ensures
        digits_value(s.take(i)) <= digits_value(s),
    decreases s.len() - i,
{
    if i < s.len() {
        lemma_digits_value_monotone(s, i + 1);
        assert(s.take(i + 1).drop_last() =~= s.take(i));
    } else {
        assert(s.take(i) =~= s);
    }
}

/// Reads an unsigned 32-bit number as `u32::from_str` does.
pub fn parse_u32_chars(d: &Vec<char>) -> (r: Option<u32>)
    ensures
        r == parse_u32(d@),
{
    let n = d.len();
    let start: usize = if n > 0 && d[0] == '+' {
        1
    } else {
        0
    };
    let ghost digits = d@.skip(start as int);
    assert(digits =~= unsigned_digits(d@));
    if start == n {
        return None;
    }
    let mut value: u64 = 0;
    let mut i = start;
    while i < n
        invariant
            start < n,
            start <= i <= n,
            n == d@.len(),
            digits == d@.skip(start as int),
            digits == unsigned_digits(d@),
            forall|j: int| 0 <= j < i - start ==> is_digit(#[trigger] digits[j]),
            value == digits_value(digits.take(i - start)),
            value <= u32::MAX,
        decreases n - i,
    {
        let c = d[i];
        assert(digits[i - start] == c);
        if !('0' <= c && c <= '9') {
            assert(!is_digit(digits[i - start]));
            assert(!all_digits(digits));
            return None;
        }
        assert(digits.take(i + 1 - start).drop_last() =~= digits.take(i - start));
        assert(digits.take(i + 1 - start).last() == c);
        let digit = (c as u32 - '0' as u32) as u64;
        let next = value * 10 + digit;
        if next > 0xffff_ffff {
            proof {
                if all_digits(digits) {
                    lemma_digits_value_monotone(digits, i + 1 - start);
                }
            }
            return None;
        }
        value = next;
        i = i + 1;
    }
    assert(digits.take(n - start) =~= digits);
    Some(value as u32)
}

/// The frame number reported by an encoder progress line: the first word
/// after a leading `frame=`, read as an unsigned number; `None` for other
/// lines and for words that are not numbers. A `frame=` line must carry a word.
pub fn progress_frame(line: &str) -> (r: Option<u32>)
    requires
        line@.len() >= 6 && line@.take(6) == "frame="@ ==> first_word(line@.skip(6)) is Some,
    ensures
        !(line@.len() >= 6 && line@.take(6) == "frame="@) ==> r is None,
        line@.len() >= 6 && line@.take(6) == "frame="@ ==> r == parse_u32(
            first_word(line@.skip(6))->0,
        ),
{
    proof {
        reveal_strlit("frame=");
        assert("frame="@ =~= seq!['f', 'r', 'a', 'm', 'e', '=']);
    }
    let cs = chars_of(line);
    let n = cs.len();
    if n < 6 || !(cs[0] == 'f' && cs[1] == 'r' && cs[2] == 'a' && cs[3] == 'm' && cs[4] == 'e'
        && cs[5] == '=') {
        if n >= 6 {
            assert(line@.take(6) != "frame="@) by {
                if line@.take(6) == "frame="@ {
                    assert(line@.take(6)[0] == cs@[0]);
                    assert(line@.take(6)[1] == cs@[1]);
                    assert(line@.take(6)[2] == cs@[2]);
                    assert(line@.take(6)[3] == cs@[3]);
                    assert(line@.take(6)[4] == cs@[4]);
                    assert(line@.take(6)[5] == cs@[5]);
                }
            }
        }
        return None;
    }
    assert(line@.take(6) =~= "frame="@);
    let ghost rest = line@.skip(6);
    let mut i: usize = 6;
    while i < n && char_is_whitespace(cs[i])
        invariant
            6 <= i <= n,
            n == cs@.len(),
            cs@ == line@,
            leading_whitespace(rest) == (i - 6) + leading_whitespace(cs@.skip(i as int)),
        decreases n - i,
    {
        assert(cs@.skip(i as int).drop_first() =~= cs@.skip(i + 1));
        i = i + 1;
    }
    let ws_end = i;
    assert(leading_whitespace(cs@.skip(i as int)) == 0);
    assert(rest.skip(leading_whitespace(rest) as int) =~= cs@.skip(ws_end as int));
    while i < n && !char_is_whitespace(cs[i])
        invariant
            ws_end <= i <= n,
            n == cs@.len(),
            leading_word(cs@.skip(ws_end as int)) == (i - ws_end) + leading_word(
                cs@.skip(i as int),
            ),
        decreases n - i,
    {
        assert(cs@.skip(i as int).drop_first() =~= cs@.skip(i + 1));
        i = i + 1;
    }
    assert(leading_word(cs@.skip(i as int)) == 0);
    let mut word: Vec<char> = Vec::new();
    let mut k = ws_end;
    while k < i
        invariant
            ws_end <= k <= i <= n,
            n == cs@.len(),
            word@ == cs@.subrange(ws_end as int, k as int),
        decreases i - k,
    {
        word.push(cs[k]);
        k = k + 1;
        assert(word@ =~= cs@.subrange(ws_end as int, k as int));
    }
    assert(cs@.skip(ws_end as int).take((i - ws_end) as int) =~= word@);
    parse_u32_chars(&word)
}

/// What a line of the encoder's error output reports.
#[derive(Clone, Copy, Debug, PartialEq, Eq, Structural)]
pub enum StderrLine {
    Warning,
    Error,
    Other,
}

/// `needle` occurs in `hay` at position `i`.
pub open spec fn occurs_at(hay: Seq<char>, needle: Seq<char>, i: int) -> bool {
    0 <= i && i + needle.len() <= hay.len() && hay.subrange(i, i + needle.len()) == needle
}

/// `needle` occurs in `hay`.
pub open spec fn contains_text(hay: Seq<char>, needle: Seq<char>) -> bool {
    exists|i: int| occurs_at(hay, needle, i)
}

fn contains_chars(hay: &Vec<char>, needle: &Vec<char>) -> (r: bool)
    ensures
        r == contains_text(hay@, needle@),
{
    let n = hay.len();
    let m = needle.len();
    if m > n {
        assert forall|i: int| !occurs_at(hay@, needle@, i) by {}
        return false;
    }
    let mut i: usize = 0;
    while i <= n - m
        invariant
            m <= n,
            i <= n - m + 1,
            n == hay@.len(),
            m == needle@.len(),
            forall|j: int| 0 <= j < i ==> !occurs_at(hay@, needle@, j),
        decreases n - m + 1 - i,
    {
        let mut k: usize = 0;
        let mut same = true;
        assert(hay@.subrange(i as int, i as int) =~= needle@.take(0));
        while k < m
            invariant
                i + m <= n,
                k <= m,
                n == hay@.len(),
                m == needle@.len(),
                same == (hay@.subrange(i as int, i + k) == needle@.take(k as int)),
            decreases m - k,
        {
            if hay[i + k] != needle[k] {
                same = false;
                assert(hay@.subrange(i as int, i + k + 1)[k as int] != needle@.take(k + 1)[k as int]);
            } else if same {
                assert(hay@.subrange(i as int, i + k + 1) =~= needle@.take(k + 1));
            }
            if !same {
                assert(hay@.subrange(i as int, i + k + 1) != needle@.take(k + 1)) by {
                    if hay@.subrange(i as int, i + k + 1) == needle@.take(k + 1) {
                        assert(hay@.subrange(i as int, i + k) =~= needle@.take(k as int));
                    }
                }
            }
            k = k + 1;
        }
        assert(needle@.take(m as int) =~= needle@);
        if same {
            assert(occurs_at(hay@, needle@, i as int));
            return true;
        }
        i = i + 1;
    }
    assert forall|j: int| !occurs_at(hay@, needle@, j) by {
        if j >= i {
            assert(j + m > n);
        }
    }
    false
}

/// Whether `needle` occurs in `hay`.
pub fn contains_str(hay: &str, needle: &str) -> (r: bool)
    ensures
        r == contains_text(hay@, needle@),
{
    let h = chars_of(hay);
    let n = chars_of(needle);
    contains_chars(&h, &n)
}

/// Classifies a line of the encoder's error output. A line mentioning a
/// warning is a warning; any other line mentioning a warning or "fatal" is an
/// error (so, in effect, a line mentioning "fatal" but no warning).
pub fn classify_stderr_line(line: &str) -> (r: StderrLine)
    ensures
        contains_text(line@, "warning"@) ==> r == StderrLine::Warning,
        !contains_text(line@, "warning"@) && contains_text(line@, "fatal"@) ==> r
            == StderrLine::Error,
        !contains_text(line@, "warning"@) && !contains_text(line@, "fatal"@) ==> r
            == StderrLine::Other,
{
    if contains_str(line, "warning") {
        StderrLine::Warning
    } else if contains_str(line, "warning") || contains_str(line, "fatal") {
        StderrLine::Error
    } else {
        StderrLine::Other
    }
}

} // verus!
