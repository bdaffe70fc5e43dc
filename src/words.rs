//! Splitting text into lines and words, and reading decimal numbers.
use vstd::prelude::*;
use crate::text::push_char;

verus! {

/// Unicode `White_Space`, the characters that separate words.
pub open spec fn is_space(c: char) -> bool {
    ('\t' <= c <= '\r') || c == ' ' || c == '\u{85}' || c == '\u{a0}' || c == '\u{1680}' || (
    '\u{2000}' <= c <= '\u{200a}') || c == '\u{2028}' || c == '\u{2029}' || c == '\u{202f}' || c
        == '\u{205f}' || c == '\u{3000}'
}

/// Whether `c` is Unicode white space.
pub fn char_is_space(c: char) -> (r: bool)
    ensures
        r == is_space(c),
{
    ('\t' <= c && c <= '\r') || c == ' ' || c == '\u{85}' || c == '\u{a0}' || c == '\u{1680}' || (
    '\u{2000}' <= c && c <= '\u{200a}') || c == '\u{2028}' || c == '\u{2029}' || c == '\u{202f}'
        || c == '\u{205f}' || c == '\u{3000}'
}

/// The words found so far and the word being read, after scanning `s` left to right
/// with `sep` as the separator test.
pub open spec fn scan_pieces(s: Seq<char>, lines: bool) -> (Seq<Seq<char>>, Seq<char>)
    decreases s.len(),
{
    if s.len() == 0 {
        (Seq::empty(), Seq::empty())
    } else {
        let (done, cur) = scan_pieces(s.drop_last(), lines);
        let c = s.last();
        if lines {
            if c == '\n' { (done.push(cur), Seq::empty()) } else { (done, cur.push(c)) }
        } else if is_space(c) {
            if cur.len() > 0 { (done.push(cur), Seq::empty()) } else { (done, Seq::empty()) }
        } else {
            (done, cur.push(c))
        }
    }
}

/// The maximal runs of non-space characters of `s`, in order.
pub open spec fn words(s: Seq<char>) -> Seq<Seq<char>> {
    let (done, cur) = scan_pieces(s, false);
    if cur.len() > 0 { done.push(cur) } else { done }
}

/// The pieces of `s` between line feeds, the last one included even when empty.
pub open spec fn pieces(s: Seq<char>) -> Seq<Seq<char>> {
    let (done, cur) = scan_pieces(s, true);
    done.push(cur)
}

/// The views of a list of strings.
pub open spec fn views(v: Seq<String>) -> Seq<Seq<char>> {
    v.map_values(|p: String| p@)
}

/// Splits `s` at line feeds (`lines`) or into words (`!lines`).
fn split(s: &str, lines: bool) -> (r: Vec<String>)
    ensures
        lines ==> views(r@) == pieces(s@),
        !lines ==> views(r@) == words(s@),
{
    let n = s.unicode_len();
    let mut done: Vec<String> = Vec::new();
    let mut cur = String::new();
    let mut i: usize = 0;
    while i < n
        invariant
            n == s@.len(),
            i <= n,
            (views(done@), cur@) == scan_pieces(s@.subrange(0, i as int), lines),
        decreases n - i,
    {
        let c = s.get_char(i);
        let ghost prefix = s@.subrange(0, i + 1);
        assert(prefix.drop_last() =~= s@.subrange(0, i as int));
        let ghost before = done@;
        if lines {
            if c == '\n' {
                done.push(cur);
                cur = String::new();
                assert(views(done@) =~= views(before).push(scan_pieces(s@.subrange(0, i as int), lines).1));
            } else {
                push_char(&mut cur, c);
            }
        } else if char_is_space(c) {
            if cur.unicode_len() > 0 {
                done.push(cur);
                assert(views(done@) =~= views(before).push(scan_pieces(s@.subrange(0, i as int), lines).1));
            }
            cur = String::new();
        } else {
            push_char(&mut cur, c);
        }
        i = i + 1;
    }
    assert(s@.subrange(0, n as int) =~= s@);
    let ghost before = done@;
    if lines || cur.unicode_len() > 0 {
        done.push(cur);
        assert(views(done@) =~= views(before).push(scan_pieces(s@, lines).1));
    }
    done
}

/// The words of `s`: its maximal runs of non-space characters.
pub fn split_words(s: &str) -> (r: Vec<String>)
    ensures
        views(r@) == words(s@),
{
    split(s, false)
}

/// The pieces of `s` between line feeds.
pub fn split_pieces(s: &str) -> (r: Vec<String>)
    ensures
        views(r@) == pieces(s@),
{
    split(s, true)
}

/// Whether `c` is an ASCII digit.
pub open spec fn is_digit(c: char) -> bool {
    '0' <= c <= '9'
}

/// The value of decimal digit `c`.
pub open spec fn digit_value(c: char) -> nat {
    (c as u32 - '0' as u32) as nat
}

/// The value of a string of decimal digits.
pub open spec fn digits_value(d: Seq<char>) -> nat
    decreases d.len(),
{
    if d.len() == 0 { 0 } else { digits_value(d.drop_last()) * 10 + digit_value(d.last()) }
}

/// Whether every character of `d` is a decimal digit.
pub open spec fn all_digits(d: Seq<char>) -> bool {
    forall|i: int| 0 <= i < d.len() ==> is_digit(d[i])
}

/// The number that `s` spells: an optional `+` then at least one decimal digit. `None`
/// when `s` has another form.
pub open spec fn decimal_value(s: Seq<char>) -> Option<nat> {
    let d = if s.len() > 0 && s[0] == '+' { s.drop_first() } else { s };
    if d.len() > 0 && all_digits(d) {
        Some(digits_value(d))
    } else {
        None
    }
}

/// The `u64` that `s` spells; `None` when it spells none or one above `u64::MAX`.
pub open spec fn spec_parse_u64(s: Seq<char>) -> Option<u64> {
    match decimal_value(s) {
        Some(v) => if v <= u64::MAX { Some(v as u64) } else { None },
        None => None,
    }
}

/// Reads a `u64` written in decimal, with an optional leading `+`.
pub fn parse_u64(s: &str) -> (r: Option<u64>)
    ensures
        r == spec_parse_u64(s@),
{
    let n = s.unicode_len();
    let start: usize = if n > 0 && s.get_char(0) == '+' { 1 } else { 0 };
    let ghost d = if s@.len() > 0 && s@[0] == '+' { s@.drop_first() } else { s@ };
    assert(d =~= s@.subrange(start as int, n as int));
    if start >= n {
        return None;
    }
    let mut acc: u64 = 0;
    let mut i: usize = start;
    while i < n
        invariant
            n == s@.len(),
            start <= i <= n,
            d == s@.subrange(start as int, n as int),
            d == (if s@.len() > 0 && s@[0] == '+' { s@.drop_first() } else { s@ }),
            acc as nat == digits_value(s@.subrange(start as int, i as int)),
            forall|j: int| start <= j < i ==> is_digit(s@[j]),
        decreases n - i,
    {
        let c = s.get_char(i);
        let ghost pre = s@.subrange(start as int, i + 1);
        assert(pre.drop_last() =~= s@.subrange(start as int, i as int));
        if !('0' <= c && c <= '9') {
            assert(d[i - start] == s@[i as int]);
            assert(!is_digit(d[i - start]));
            assert(!all_digits(d));
            assert(decimal_value(s@) is None);
            return None;
        }
        let v: u128 = acc as u128 * 10 + (c as u32 - '0' as u32) as u128;
        if v > u64::MAX as u128 {
            proof {
                assert(pre.last() == c);
                assert(digits_value(pre) == digits_value(pre.drop_last()) * 10 + digit_value(c));
                assert(digits_value(pre) == v);
                if all_digits(d) {
                    lemma_digits_grow(d, (i + 1 - start) as int);
                    assert(d.subrange(0, (i + 1 - start) as int) =~= pre);
                    assert(decimal_value(s@) == Some(digits_value(d)));
                } else {
                    assert(decimal_value(s@) is None);
                }
            }
            return None;
        }
        acc = v as u64;
        i = i + 1;
    }
    assert(s@.subrange(start as int, n as int) =~= s@.subrange(start as int, i as int));
    Some(acc)
}

/// The value of a run of digits is at least the value of any prefix of it.
proof fn lemma_digits_grow(d: Seq<char>, k: int)
    requires
        0 <= k <= d.len(),
        forall|i: int| 0 <= i < d.len() ==> is_digit(d[i]),
    ensures
        digits_value(d) >= digits_value(d.subrange(0, k)),
    decreases d.len(),
{
    if k < d.len() {
        assert(d.drop_last().subrange(0, k) =~= d.subrange(0, k));
        lemma_digits_grow(d.drop_last(), k);
    } else {
        assert(d.subrange(0, k) =~= d);
    }
}

} // verus!
