use vstd::prelude::*;
use crate::shared::text::{chars_of, matches_at, occurs_at, push_chars, text_of, texts};

verus! {

/// Whether a character is white space: the characters that have Unicode's
/// `White_Space` property.
pub open spec fn is_space(c: char) -> bool {
    ||| '\u{9}' <= c <= '\u{d}'
    ||| c == ' '
    ||| c == '\u{85}'
    ||| c == '\u{a0}'
    ||| c == '\u{1680}'
    ||| '\u{2000}' <= c <= '\u{200a}'
    ||| c == '\u{2028}'
    ||| c == '\u{2029}'
    ||| c == '\u{202f}'
    ||| c == '\u{205f}'
    ||| c == '\u{3000}'
}

/// `char::is_whitespace` tells whether a character has Unicode's
/// `White_Space` property.
pub assume_specification[ char::is_whitespace ](c: char) -> (r: bool)
    ensures
        r == is_space(c),
;

/// The text behind position `from`.
pub open spec fn tail(s: Seq<char>, from: int) -> Seq<char> {
    s.subrange(from, s.len() as int)
}

/// How many characters stand before the first white space of `s`.
pub open spec fn word_len(s: Seq<char>) -> nat
    decreases s.len(),
{
    if s.len() == 0 || is_space(s[0]) {
        0
    } else {
        1 + word_len(tail(s, 1))
    }
}

/// The words of a text: its longest runs of characters that are not white
/// space, from left to right. A word is never empty nor longer than the text;
/// the test of its length says so where the rest of the text is taken.
pub open spec fn words(s: Seq<char>) -> Seq<Seq<char>>
    decreases s.len(),
{
    if s.len() == 0 {
        Seq::empty()
    } else if is_space(s[0]) {
        words(tail(s, 1))
    } else if 0 < word_len(s) <= s.len() {
        seq![s.subrange(0, word_len(s) as int)] + words(tail(s, word_len(s) as int))
    } else {
        Seq::empty()
    }
}

/// How many characters stand before the first line feed of `s`.
pub open spec fn line_len(s: Seq<char>) -> nat
    decreases s.len(),
{
    if s.len() == 0 || s[0] == '\n' {
        0
    } else {
        1 + line_len(tail(s, 1))
    }
}

/// A line without the carriage return that may end it.
pub open spec fn without_carriage_return(line: Seq<char>) -> Seq<char> {
    if line.len() > 0 && line.last() == '\r' {
        line.drop_last()
    } else {
        line
    }
}

/// The lines of a text. A line ends with a line feed, or with a carriage
/// return and a line feed; neither belongs to the line. What follows the last
/// line feed is a line too, unless it is empty.
pub open spec fn lines_of(s: Seq<char>) -> Seq<Seq<char>>
    decreases s.len(),
{
    if s.len() == 0 {
        Seq::empty()
    } else if line_len(s) >= s.len() {
        seq![s]
    } else {
        seq![without_carriage_return(s.subrange(0, line_len(s) as int))] + lines_of(
            tail(s, line_len(s) as int + 1),
        )
    }
}

/// A text without the white space that it begins with.
pub open spec fn trimmed_start(s: Seq<char>) -> Seq<char>
    decreases s.len(),
{
    if s.len() > 0 && is_space(s[0]) {
        trimmed_start(tail(s, 1))
    } else {
        s
    }
}

/// A text without the white space that it ends with.
pub open spec fn trimmed_end(s: Seq<char>) -> Seq<char>
    decreases s.len(),
{
    if s.len() > 0 && is_space(s.last()) {
        trimmed_end(s.drop_last())
    } else {
        s
    }
}

/// A text without the white space that it begins and ends with.
pub open spec fn trimmed(s: Seq<char>) -> Seq<char> {
    trimmed_end(trimmed_start(s))
}

/// The first position of `c` in `s` from `from` on, or the length of `s`
/// where there is none.
pub open spec fn position_of(s: Seq<char>, c: char, from: int) -> int
    decreases s.len() - from,
{
    if from < 0 || from >= s.len() {
        s.len() as int
    } else if s[from] == c {
        from
    } else {
        position_of(s, c, from + 1)
    }
}

/// The last position of `c` in the first `upto` characters of `s`, if there
/// is one.
pub open spec fn last_position_of(s: Seq<char>, c: char, upto: int) -> Option<int>
    decreases upto,
{
    if upto <= 0 || upto > s.len() {
        None
    } else if s[upto - 1] == c {
        Some(upto - 1)
    } else {
        last_position_of(s, c, upto - 1)
    }
}

/// The parts of `s` before and behind its last `c`, if it has one.
pub open spec fn split_at_last(s: Seq<char>, c: char) -> Option<(Seq<char>, Seq<char>)> {
    match last_position_of(s, c, s.len() as int) {
        Some(at) => Some((s.subrange(0, at), tail(s, at + 1))),
        None => None,
    }
}

/// The second of the fields that `c` separates `s` into, if there are two:
/// what stands between the first `c` and the next, or the end.
pub open spec fn second_field_of(s: Seq<char>, c: char) -> Option<Seq<char>> {
    let first = position_of(s, c, 0);
    if first >= s.len() {
        None
    } else {
        Some(s.subrange(first + 1, position_of(s, c, first + 1)))
    }
}

/// The value of a decimal digit.
pub open spec fn digit_value(c: char) -> Option<int> {
    if '0' <= c <= '9' {
        Some(c as int - '0' as int)
    } else {
        None
    }
}

/// The number that a text of decimal digits writes, if it is one.
pub open spec fn decimal(s: Seq<char>) -> Option<int>
    decreases s.len(),
{
    if s.len() == 0 {
        None
    } else if digit_value(s.last()) is None {
        None
    } else if s.len() == 1 {
        digit_value(s.last())
    } else {
        match decimal(s.drop_last()) {
            Some(front) => Some(10 * front + digit_value(s.last())->0),
            None => None,
        }
    }
}

/// The number that a text writes, if it writes one that is no larger than
/// `max`: decimal digits, with or without a plus sign before them.
pub open spec fn unsigned_of(s: Seq<char>, max: int) -> Option<int> {
    let digits = if s.len() > 0 && s[0] == '+' {
        tail(s, 1)
    } else {
        s
    };
    match decimal(digits) {
        Some(value) => if value <= max {
            Some(value)
        } else {
            None
        },
        None => None,
    }
}

/// Whether `s` ends with `suffix`.
pub open spec fn has_suffix(s: Seq<char>, suffix: Seq<char>) -> bool {
    occurs_at(s, suffix, s.len() - suffix.len())
}

/// A text without the repetitions of `suffix` that it ends with. An empty
/// suffix is not looked for.
pub open spec fn without_suffixes(s: Seq<char>, suffix: Seq<char>) -> Seq<char>
    decreases s.len(),
{
    if suffix.len() > 0 && has_suffix(s, suffix) {
        without_suffixes(s.subrange(0, s.len() - suffix.len()), suffix)
    } else {
        s
    }
}

/// The word at the head of a text is what stands before the first white
/// space behind position zero.
proof fn lemma_word_len_is_first_space(s: Seq<char>, n: int)
    requires
        0 <= n <= s.len(),
        forall|k: int| 0 <= k < n ==> !is_space(#[trigger] s[k]),
        n < s.len() ==> is_space(s[n]),
    ensures
        word_len(s) == n,
    decreases s.len(),
{
    if s.len() > 0 && !is_space(s[0]) {
        let rest = tail(s, 1);
        lemma_word_len_is_first_space(rest, n - 1);
    }
}

/// The line at the head of a text is what stands before the first line feed.
proof fn lemma_line_len_is_first_feed(s: Seq<char>, n: int)
    requires
        0 <= n <= s.len(),
        forall|k: int| 0 <= k < n ==> #[trigger] s[k] != '\n',
        n < s.len() ==> s[n] == '\n',
    ensures
        line_len(s) == n,
    decreases s.len(),
{
    if s.len() > 0 && s[0] != '\n' {
        let rest = tail(s, 1);
        lemma_line_len_is_first_feed(rest, n - 1);
    }
}

/// The text of the characters `v[from..to]`.
pub fn slice_text(v: &Vec<char>, from: usize, to: usize) -> (s: String)
    requires
        from <= to <= v.len(),
    ensures
        s@ == v@.subrange(from as int, to as int),
{
    let mut s = String::new();
    push_chars(&mut s, v, from, to);
    s
}

/// The words of a text.
pub fn split_whitespace(s: &str) -> (list: Vec<String>)
    ensures
        texts(list@) == words(s@),
{
    let v = chars_of(s);
    let n: usize = v.len();
    let mut list: Vec<String> = Vec::new();
    let mut i: usize = 0;
    assert(tail(s@, 0) == s@);
    while i < n
        invariant
            i <= n,
            n == v.len(),
            v@ == s@,
            texts(list@) + words(tail(s@, i as int)) == words(s@),
        decreases n - i,
    {
        let ghost rest = tail(s@, i as int);
        if v[i].is_whitespace() {
            assert(tail(rest, 1) == tail(s@, i + 1));
            i += 1;
        } else {
            let start: usize = i;
            let mut j: usize = i + 1;
            while j < n && !v[j].is_whitespace()
                invariant
                    start < j <= n,
                    n == v.len(),
                    v@ == s@,
                    forall|k: int| start <= k < j ==> !is_space(#[trigger] s@[k]),
                decreases n - j,
            {
                j += 1;
            }
            proof {
                lemma_word_len_is_first_space(rest, j - start);
                assert(rest.subrange(0, j - start) == s@.subrange(start as int, j as int));
                assert(tail(rest, j - start) == tail(s@, j as int));
            }
            let word = slice_text(&v, start, j);
            list.push(word);
            i = j;
        }
    }
    list
}

/// The lines of a text.
pub fn lines(s: &str) -> (list: Vec<String>)
    ensures
        texts(list@) == lines_of(s@),
{
    let v = chars_of(s);
    let n: usize = v.len();
    let mut list: Vec<String> = Vec::new();
    let mut i: usize = 0;
    assert(tail(s@, 0) == s@);
    while i < n
        invariant
            i <= n,
            n == v.len(),
            v@ == s@,
            texts(list@) + lines_of(tail(s@, i as int)) == lines_of(s@),
        decreases n - i,
    {
        let ghost rest = tail(s@, i as int);
        let start: usize = i;
        let mut j: usize = i;
        while j < n && v[j] != '\n'
            invariant
                start <= j <= n,
                n == v.len(),
                v@ == s@,
                forall|k: int| start <= k < j ==> #[trigger] s@[k] != '\n',
            decreases n - j,
        {
            j += 1;
        }
        proof {
            lemma_line_len_is_first_feed(rest, j - start);
            assert(rest.subrange(0, j - start) == s@.subrange(start as int, j as int));
        }
        if j == n {
            let line = slice_text(&v, start, n);
            list.push(line);
            i = n;
        } else {
            let end: usize = if j > start && v[j - 1] == '\r' {
                j - 1
            } else {
                j
            };
            let line = slice_text(&v, start, end);
            proof {
                let whole = s@.subrange(start as int, j as int);
                if j > start && s@[j - 1] == '\r' {
                    assert(whole.drop_last() == s@.subrange(start as int, j - 1));
                }
                assert(tail(rest, j - start + 1) == tail(s@, j + 1));
            }
            list.push(line);
            i = j + 1;
        }
    }
    list
}

/// A text without the white space that it begins and ends with.
pub fn trim(s: &str) -> (out: String)
    ensures
        out@ == trimmed(s@),
{
    let v = chars_of(s);
    let n: usize = v.len();
    let mut from: usize = 0;
    assert(tail(s@, 0) == s@);
    while from < n && v[from].is_whitespace()
        invariant
            from <= n,
            n == v.len(),
            v@ == s@,
            trimmed_start(s@) == trimmed_start(tail(s@, from as int)),
        decreases n - from,
    {
        assert(tail(tail(s@, from as int), 1) == tail(s@, from + 1));
        from += 1;
    }
    let mut to: usize = n;
    while to > from && v[to - 1].is_whitespace()
        invariant
            from <= to <= n,
            n == v.len(),
            v@ == s@,
            trimmed(s@) == trimmed_end(s@.subrange(from as int, to as int)),
        decreases to,
    {
        assert(s@.subrange(from as int, to as int).drop_last() == s@.subrange(
            from as int,
            to - 1,
        ));
        to -= 1;
    }
    slice_text(&v, from, to)
}

/// The parts of a text before and behind its last `c`, if it has one.
pub fn rsplit_once(s: &str, c: char) -> (parts: Option<(String, String)>)
    ensures
        match parts {
            Some((front, back)) => split_at_last(s@, c) == Some((front@, back@)),
            None => split_at_last(s@, c) is None,
        },
{
    let v = chars_of(s);
    let n: usize = v.len();
    let mut i: usize = n;
    while i > 0
        invariant
            i <= n,
            n == v.len(),
            v@ == s@,
            last_position_of(s@, c, n as int) == last_position_of(s@, c, i as int),
        decreases i,
    {
        if v[i - 1] == c {
            let front = slice_text(&v, 0, i - 1);
            let back = slice_text(&v, i, n);
            return Some((front, back));
        }
        i -= 1;
    }
    None
}

/// The first position of `c` in `v` from `from` on, or the length of `v`.
fn find_char(v: &Vec<char>, c: char, from: usize) -> (at: usize)
    requires
        from <= v.len(),
    ensures
        at == position_of(v@, c, from as int),
        from <= at <= v.len(),
{
    let mut i: usize = from;
    while i < v.len() && v[i] != c
        invariant
            from <= i <= v.len(),
            position_of(v@, c, from as int) == position_of(v@, c, i as int),
        decreases v.len() - i,
    {
        i += 1;
    }
    i
}

/// The second of the fields that `c` separates a text into, if there are two.
pub fn second_field(s: &str, c: char) -> (field: Option<String>)
    ensures
        text_of(field) == second_field_of(s@, c),
{
    let v = chars_of(s);
    let first = find_char(&v, c, 0);
    if first >= v.len() {
        return None;
    }
    let next = find_char(&v, c, first + 1);
    Some(slice_text(&v, first + 1, next))
}

/// Whether a text ends with the character `c`.
pub fn ends_with_char(s: &str, c: char) -> (r: bool)
    ensures
        r == (s@.len() > 0 && s@.last() == c),
{
    let v = chars_of(s);
    v.len() > 0 && v[v.len() - 1] == c
}

/// A text without the repetitions of `suffix` that it ends with.
pub fn trim_end_matches(s: &str, suffix: &str) -> (out: String)
    ensures
        out@ == without_suffixes(s@, suffix@),
{
    let v = chars_of(s);
    let p = chars_of(suffix);
    let mut end: usize = v.len();
    assert(s@.subrange(0, end as int) == s@);
    if p.len() == 0 {
        return slice_text(&v, 0, end);
    }
    while end >= p.len() && matches_before(&v, &p, end)
        invariant
            end <= v.len(),
            v@ == s@,
            p@ == suffix@,
            p.len() > 0,
            without_suffixes(s@, suffix@) == without_suffixes(
                s@.subrange(0, end as int),
                suffix@,
            ),
        decreases end,
    {
        let ghost front = s@.subrange(0, end as int);
        assert(front.subrange(0, front.len() - suffix@.len()) == s@.subrange(
            0,
            end - p.len(),
        ));
        end -= p.len();
    }
    slice_text(&v, 0, end)
}

/// Whether `p` stands in `v` right before position `end`.
fn matches_before(v: &Vec<char>, p: &Vec<char>, end: usize) -> (r: bool)
    requires
        p.len() <= end <= v.len(),
    ensures
        r == has_suffix(v@.subrange(0, end as int), p@),
{
    let start: usize = end - p.len();
    let r = matches_at(v, p, start);
    proof {
        let front = v@.subrange(0, end as int);
        assert(front.subrange(start as int, start + p@.len()) == v@.subrange(
            start as int,
            start + p@.len(),
        ));
    }
    r
}

/// The number that a text of decimal digits writes, with or without a plus
/// sign before them, if it is no larger than `max`.
fn parse_unsigned(s: &str, max: u64) -> (value: Option<u64>)
    requires
        max <= u32::MAX,
    ensures
        match value {
            Some(v) => unsigned_of(s@, max as int) == Some(v as int),
            None => unsigned_of(s@, max as int) is None,
        },
{
    let v = chars_of(s);
    let n: usize = v.len();
    let start: usize = if n > 0 && v[0] == '+' {
        1
    } else {
        0
    };
    let ghost digits = tail(s@, start as int);
    if start == n {
        return None;
    }
    let mut total: u64 = 0;
    let mut i: usize = start;
    while i < n
        invariant
            start <= i <= n,
            start < n,
            n == v.len(),
            v@ == s@,
            digits == tail(s@, start as int),
            start == (if s@.len() > 0 && s@[0] == '+' {
                1int
            } else {
                0int
            }),
            s@ == tail(s@, 0),
            total <= max <= u32::MAX,
            i > start ==> decimal(digits.subrange(0, i - start)) == Some(total as int),
            i == start ==> total == 0,
        decreases n - i,
    {
        let c = v[i];
        if c < '0' || c > '9' {
            proof {
                lemma_decimal_needs_digits(digits, i - start);
            }
            return None;
        }
        let d: u64 = (c as u32 - '0' as u32) as u64;
        let next: u64 = total * 10 + d;
        proof {
            let upto = digits.subrange(0, i - start + 1);
            assert(upto.drop_last() == digits.subrange(0, i - start));
        }
        if next > max {
            proof {
                lemma_decimal_grows(digits, i - start + 1);
            }
            return None;
        }
        total = next;
        i += 1;
    }
    assert(digits.subrange(0, n - start) == digits);
    Some(total)
}

/// A text with a character that is no digit writes no number.
proof fn lemma_decimal_needs_digits(s: Seq<char>, at: int)
    requires
        0 <= at < s.len(),
        digit_value(s[at]) is None,
    ensures
        decimal(s) is None,
    decreases s.len(),
{
    if at < s.len() - 1 {
        lemma_decimal_needs_digits(s.drop_last(), at);
    }
}

/// The number that a text writes is no smaller than the number that a
/// beginning of it writes.
proof fn lemma_decimal_grows(s: Seq<char>, upto: int)
    requires
        0 < upto <= s.len(),
        decimal(s.subrange(0, upto)) is Some,
    ensures
        decimal(s) matches Some(value) ==> value >= decimal(s.subrange(0, upto))->0,
        decimal(s.subrange(0, upto))->0 >= 0,
    decreases s.len(),
{
    lemma_decimal_is_natural(s.subrange(0, upto));
    if upto == s.len() {
        assert(s.subrange(0, upto) == s);
    } else {
        let front = s.drop_last();
        assert(front.subrange(0, upto) == s.subrange(0, upto));
        lemma_decimal_grows(front, upto);
    }
}

/// A number that a text writes is not negative.
proof fn lemma_decimal_is_natural(s: Seq<char>)
    ensures
        decimal(s) matches Some(value) ==> value >= 0,
    decreases s.len(),
{
    if s.len() > 1 {
        lemma_decimal_is_natural(s.drop_last());
    }
}

/// The port that a text writes, if it writes one.
pub fn parse_u16(s: &str) -> (value: Option<u16>)
    ensures
        match value {
            Some(v) => unsigned_of(s@, u16::MAX as int) == Some(v as int),
            None => unsigned_of(s@, u16::MAX as int) is None,
        },
{
    match parse_unsigned(s, 65535) {
        Some(v) => Some(v as u16),
        None => None,
    }
}

/// The number that a text writes, if it writes one that 32 bits hold.
pub fn parse_u32(s: &str) -> (value: Option<u32>)
    ensures
        match value {
            Some(v) => unsigned_of(s@, u32::MAX as int) == Some(v as int),
            None => unsigned_of(s@, u32::MAX as int) is None,
        },
{
    match parse_unsigned(s, 4294967295) {
        Some(v) => Some(v as u32),
        None => None,
    }
}

} // verus!
