//! Character-sequence helpers shared by the rest of the library.
//!
//! Strings are modelled by their view, a `Seq<char>`. Everything here is
//! stated over that model.

use vstd::prelude::*;

verus! {

/// `needle` occurs in `hay` starting at offset `i`.
pub open spec fn occurs_at(hay: Seq<char>, needle: Seq<char>, i: int) -> bool {
    &&& 0 <= i
    &&& i + needle.len() <= hay.len()
    &&& hay.subrange(i, i + needle.len()) == needle
}

/// `needle` occurs somewhere in `hay` as a contiguous run.
pub open spec fn contains_seq(hay: Seq<char>, needle: Seq<char>) -> bool {
    exists|i: int| occurs_at(hay, needle, i)
}

/// `prefix` is an initial segment of `s`.
pub open spec fn starts_with_seq(s: Seq<char>, prefix: Seq<char>) -> bool {
    occurs_at(s, prefix, 0)
}

/// The lowercase form of a character sequence, as the standard library
/// computes it.
pub uninterp spec fn lowercase_of(s: Seq<char>) -> Seq<char>;

/// Calls `str::to_lowercase`. The result is a function of the input alone;
/// it is named, not described.
#[verifier::external_body]
pub(crate) fn lowercase(s: &str) -> (out: String)
    ensures
        out@ == lowercase_of(s@),
{
    s.to_lowercase()
}

/// Calls `String::from_iter` on the characters of `v`: the string made of
/// exactly those characters, in order.
#[verifier::external_body]
pub(crate) fn string_from_chars(v: &Vec<char>) -> (out: String)
    ensures
        out@ == v@,
{
    String::from_iter(v.iter())
}

/// The characters of `s`, in order.
pub fn chars_of(s: &str) -> (out: Vec<char>)
    ensures
        out@ == s@,
{
    let mut out: Vec<char> = Vec::new();
    for c in it: s.chars()
        invariant
            out@ == it.seq().take(it.index() as int),
            it.seq() == s@,
    {
        out.push(c);
    }
    out
}

/// An owned copy of `s`.
pub fn owned(s: &str) -> (out: String)
    ensures
        out@ == s@,
{
    s.to_owned()
}

/// `a` followed by `b`.
pub fn concat(a: &str, b: &str) -> (out: String)
    ensures
        out@ == a@ + b@,
{
    let mut out = a.to_owned();
    out.append(b);
    out
}

/// Whether two strings hold the same characters.
pub fn same_text(a: &str, b: &str) -> (out: bool)
    ensures
        out == (a@ == b@),
{
    let x = chars_of(a);
    let y = chars_of(b);
    same_chars(&x, &y)
}

/// Whether two character vectors are equal.
pub fn same_chars(a: &Vec<char>, b: &Vec<char>) -> (out: bool)
    ensures
        out == (a@ == b@),
{
    if a.len() != b.len() {
        return false;
    }
    let mut i: usize = 0;
    while i < a.len()
        invariant
            a.len() == b.len(),
            i <= a.len(),
            a@.take(i as int) == b@.take(i as int),
        decreases a.len() - i,
    {
        if a[i] != b[i] {
            return false;
        }
        assert(a@.take(i + 1) == a@.take(i as int).push(a@[i as int]));
        assert(b@.take(i + 1) == b@.take(i as int).push(b@[i as int]));
        i += 1;
    }
    assert(a@.take(a.len() as int) == a@);
    assert(b@.take(b.len() as int) == b@);
    true
}

/// Whether `needle` occurs in `hay` at offset `start`.
fn matches_at(hay: &Vec<char>, needle: &Vec<char>, start: usize) -> (out: bool)
    requires
        start + needle.len() <= hay.len(),
    ensures
        out == occurs_at(hay@, needle@, start as int),
{
    let mut j: usize = 0;
    while j < needle.len()
        invariant
            j <= needle.len(),
            start + needle.len() <= hay.len(),
            forall|k: int| 0 <= k < j ==> hay@[start + k] == needle@[k],
        decreases needle.len() - j,
    {
        if hay[start + j] != needle[j] {
            assert(hay@.subrange(start as int, start + needle.len())[j as int] != needle@[j as int]);
            return false;
        }
        j += 1;
    }
    assert(hay@.subrange(start as int, start + needle.len()) =~= needle@);
    true
}

/// Whether `needle` occurs in `hay`.
pub fn contains_chars(hay: &Vec<char>, needle: &Vec<char>) -> (out: bool)
    ensures
        out == contains_seq(hay@, needle@),
{
    if needle.len() > hay.len() {
        return false;
    }
    let last: usize = hay.len() - needle.len();
    let mut i: usize = 0;
    while i < last
        invariant
            last == hay.len() - needle.len(),
            needle.len() <= hay.len(),
            i <= last,
            forall|k: int| 0 <= k < i ==> !occurs_at(hay@, needle@, k),
        decreases last - i,
    {
        if matches_at(hay, needle, i) {
            return true;
        }
        i += 1;
    }
    matches_at(hay, needle, last)
}

/// Whether the text `needle` occurs in the text `hay`.
pub fn str_contains(hay: &str, needle: &str) -> (out: bool)
    ensures
        out == contains_seq(hay@, needle@),
{
    let h = chars_of(hay);
    let n = chars_of(needle);
    contains_chars(&h, &n)
}

/// Whether a character is blank space: one of the characters that Unicode
/// gives the property of white space. These are the tab, the line feed,
/// the vertical tab, the form feed, the carriage return and the space; the
/// next-line control and the no-break space; and the spaces and separators
/// of the general punctuation block and beside it.
pub open spec fn is_blank(c: char) -> bool {
    ('\u{9}' <= c <= '\u{d}') || c == ' ' || c == '\u{85}' || c == '\u{a0}' || c == '\u{1680}'
        || ('\u{2000}' <= c <= '\u{200a}') || c == '\u{2028}' || c == '\u{2029}' || c
        == '\u{202f}' || c == '\u{205f}' || c == '\u{3000}'
}

/// The text without the blank space at its start.
pub open spec fn trim_start_seq(s: Seq<char>) -> Seq<char>
    decreases s.len(),
{
    if s.len() > 0 && is_blank(s[0]) {
        trim_start_seq(s.drop_first())
    } else {
        s
    }
}

/// The text without the blank space at its end.
pub open spec fn trim_end_seq(s: Seq<char>) -> Seq<char>
    decreases s.len(),
{
    if s.len() > 0 && is_blank(s.last()) {
        trim_end_seq(s.drop_last())
    } else {
        s
    }
}

/// The text without the blank space at its start and at its end.
pub open spec fn trim_seq(s: Seq<char>) -> Seq<char> {
    trim_end_seq(trim_start_seq(s))
}

/// Whether a character is blank space.
pub fn is_blank_char(c: char) -> (out: bool)
    ensures
        out == is_blank(c),
{
    (c >= '\u{9}' && c <= '\u{d}') || c == ' ' || c == '\u{85}' || c == '\u{a0}' || c == '\u{1680}'
        || (c >= '\u{2000}' && c <= '\u{200a}') || c == '\u{2028}' || c == '\u{2029}' || c
        == '\u{202f}' || c == '\u{205f}' || c == '\u{3000}'
}

/// The text without the blank space at its start and at its end.
pub fn trim_blanks(s: &str) -> (out: String)
    ensures
        out@ == trim_seq(s@),
{
    let chars = chars_of(s);
    let mut start: usize = 0;
    assert(chars@.skip(0) =~= chars@);
    while start < chars.len() && is_blank_char(chars[start])
        invariant
            start <= chars.len(),
            trim_start_seq(chars@) == trim_start_seq(chars@.skip(start as int)),
        decreases chars.len() - start,
    {
        assert(chars@.skip(start as int).drop_first() =~= chars@.skip(start + 1));
        start += 1;
    }
    assert(trim_start_seq(chars@) == chars@.skip(start as int)) by {
        assert(chars@.skip(0) =~= chars@);
        let rest = chars@.skip(start as int);
        if rest.len() > 0 {
            assert(rest[0] == chars@[start as int]);
        }
    }
    let mut end: usize = chars.len();
    while end > start && is_blank_char(chars[end - 1])
        invariant
            start <= end <= chars.len(),
            trim_end_seq(chars@.skip(start as int)) == trim_end_seq(
                chars@.subrange(start as int, end as int),
            ),
        decreases end - start,
    {
        assert(chars@.subrange(start as int, end as int).drop_last() =~= chars@.subrange(
            start as int,
            end - 1,
        ));
        end -= 1;
    }
    proof {
        assert(chars@.skip(start as int) =~= chars@.subrange(start as int, chars.len() as int));
        let kept = chars@.subrange(start as int, end as int);
        if kept.len() > 0 {
            assert(kept.last() == chars@[end - 1]);
        }
        assert(trim_end_seq(kept) == kept);
    }
    let mut out: Vec<char> = Vec::new();
    let mut i: usize = start;
    while i < end
        invariant
            start <= i <= end <= chars.len(),
            out@ == chars@.subrange(start as int, i as int),
        decreases end - i,
    {
        assert(chars@.subrange(start as int, i + 1) =~= chars@.subrange(start as int, i as int).push(
            chars@[i as int],
        ));
        out.push(chars[i]);
        i += 1;
    }
    string_from_chars(&out)
}

/// How often a character occurs in a text.
pub open spec fn count_char(s: Seq<char>, c: char) -> nat
    decreases s.len(),
{
    if s.len() == 0 {
        0
    } else {
        count_char(s.drop_last(), c) + if s.last() == c {
            1nat
        } else {
            0nat
        }
    }
}

/// The number of lines of a text: one for each line feed, and one more for
/// a last line that no line feed ends.
pub open spec fn line_count(s: Seq<char>) -> nat {
    count_char(s, '\n') + if s.len() > 0 && s.last() != '\n' {
        1nat
    } else {
        0nat
    }
}

/// A character occurs in a text at most as often as the text is long.
pub proof fn lemma_count_char_bounded(s: Seq<char>, c: char)
    ensures
        count_char(s, c) <= s.len(),
    decreases s.len(),
{
    if s.len() > 0 {
        lemma_count_char_bounded(s.drop_last(), c);
    }
}

/// The number of lines of a text.
pub fn count_lines(s: &str) -> (out: usize)
    ensures
        out == line_count(s@),
{
    let chars = chars_of(s);
    let mut feeds: usize = 0;
    let mut i: usize = 0;
    while i < chars.len()
        invariant
            i <= chars.len(),
            feeds == count_char(chars@.take(i as int), '\n'),
            feeds <= i,
        decreases chars.len() - i,
    {
        assert(chars@.take(i + 1).drop_last() =~= chars@.take(i as int));
        if chars[i] == '\n' {
            feeds += 1;
        }
        i += 1;
    }
    assert(chars@.take(chars.len() as int) =~= chars@);
    if chars.len() > 0 && chars[chars.len() - 1] != '\n' {
        proof {
            lemma_count_char_bounded(chars@.drop_last(), '\n');
        }
        feeds + 1
    } else {
        feeds
    }
}

/// The decimal digit character for `d`.
pub open spec fn digit_char(d: int) -> char
    recommends
        0 <= d < 10,
{
    (('0' as u8) + (d as u8)) as char
}

/// The decimal digits of a natural number, most significant first, with no
/// leading zero (zero itself is the single digit `0`).
pub open spec fn decimal_of_nat(n: nat) -> Seq<char>
    decreases n,
{
    if n < 10 {
        seq![digit_char(n as int)]
    } else {
        decimal_of_nat(n / 10).push(digit_char((n % 10) as int))
    }
}

/// The decimal form of an integer: a minus sign for negative numbers, then
/// the digits of its magnitude.
pub open spec fn decimal_of(n: int) -> Seq<char> {
    if n < 0 {
        seq!['-'] + decimal_of_nat((-n) as nat)
    } else {
        decimal_of_nat(n as nat)
    }
}

/// The decimal digits of `n`, as characters.
pub fn decimal_chars(n: u64) -> (out: Vec<char>)
    ensures
        out@ == decimal_of_nat(n as nat),
{
    let mut rev: Vec<char> = Vec::new();
    let mut rest: u64 = n;
    // `rev` holds the low digits of `n` in reverse order.
    loop
        invariant_except_break
            decimal_of_nat(n as nat) == decimal_of_nat(rest as nat) + rev@.reverse(),
        ensures
            rest < 10,
            decimal_of_nat(n as nat) == decimal_of_nat(rest as nat) + rev@.reverse(),
        decreases rest,
    {
        if rest < 10 {
            break ;
        }
        let d: u8 = (rest % 10) as u8;
        let c: char = (48u8 + d) as char;
        assert(c == digit_char((rest % 10) as int));
        proof {
            let lower = rev@.reverse();
            let pushed = rev@.push(c).reverse();
            assert(pushed =~= seq![c] + lower);
            assert(decimal_of_nat(rest as nat) == decimal_of_nat((rest / 10) as nat).push(c));
            assert(decimal_of_nat((rest / 10) as nat).push(c) + lower =~= decimal_of_nat(
                (rest / 10) as nat,
            ) + pushed);
        }
        rev.push(c);
        rest = rest / 10;
    }
    let top: char = (48u8 + (rest as u8)) as char;
    assert(top == digit_char(rest as int));
    let mut out: Vec<char> = Vec::new();
    out.push(top);
    let mut i: usize = rev.len();
    while i > 0
        invariant
            i <= rev.len(),
            out@ == seq![top] + rev@.reverse().take(rev.len() - i),
        decreases i,
    {
        i -= 1;
        let c = rev[i];
        assert(rev@.reverse()[rev.len() - 1 - i] == c);
        assert(rev@.reverse().take(rev.len() - i) =~= rev@.reverse().take(rev.len() - 1 - i).push(
            c,
        ));
        out.push(c);
    }
    assert(rev@.reverse().take(rev.len() as int) =~= rev@.reverse());
    out
}

/// The decimal form of a signed integer, as a string.
pub fn decimal_string(n: i64) -> (out: String)
    ensures
        out@ == decimal_of(n as int),
{
    if n < 0 {
        let magnitude: u64 = if n == i64::MIN {
            9223372036854775808u64
        } else {
            (-n) as u64
        };
        let digits = decimal_chars(magnitude);
        let mut all: Vec<char> = Vec::new();
        all.push('-');
        let mut i: usize = 0;
        while i < digits.len()
            invariant
                i <= digits.len(),
                all@ == seq!['-'] + digits@.take(i as int),
            decreases digits.len() - i,
        {
            assert(digits@.take(i + 1) =~= digits@.take(i as int).push(digits@[i as int]));
            all.push(digits[i]);
            i += 1;
        }
        assert(digits@.take(digits.len() as int) =~= digits@);
        string_from_chars(&all)
    } else {
        let digits = decimal_chars(n as u64);
        string_from_chars(&digits)
    }
}

} // verus!
