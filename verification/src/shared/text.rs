use vstd::prelude::*;
use vstd::utf8::{decode_utf8, valid_utf8};

verus! {

/// `core::str::Utf8Error`: why bytes are no text. Nothing is read off it.
#[verifier::external_type_specification]
#[verifier::external_body]
pub struct ExUtf8Error(core::str::Utf8Error);

/// `core::str::from_utf8` reads bytes as text: it succeeds exactly on
/// well-formed UTF-8 and then gives the characters that the bytes encode.
pub assume_specification[ core::str::from_utf8 ](bytes: &[u8]) -> (r: Result<
    &str,
    core::str::Utf8Error,
>)
    ensures
        r is Ok <==> valid_utf8(bytes@),
        r matches Ok(s) ==> s@ == decode_utf8(bytes@),
;

/// `String::push` appends one character to the end of the string.
pub assume_specification[ String::push ](s: &mut String, c: char)
    ensures
        final(s)@ == old(s)@.push(c),
;

/// The lower-case form of a text under Unicode's case mapping.
pub uninterp spec fn lowercase(s: Seq<char>) -> Seq<char>;

/// `str::to_lowercase` maps a text to lower case by Unicode's rules, which
/// look at the text alone.
pub assume_specification[ str::to_lowercase ](s: &str) -> (r: String)
    ensures
        r@ == lowercase(s@),
;

/// The characters of a text that may be absent.
pub open spec fn text_of(s: Option<String>) -> Option<Seq<char>> {
    match s {
        Some(t) => Some(t@),
        None => None,
    }
}

/// The characters of each text of a list.
pub open spec fn texts(list: Seq<String>) -> Seq<Seq<char>> {
    list.map_values(|s: String| s@)
}

/// Whether `needle` stands in `hay` at position `at`.
pub open spec fn occurs_at(hay: Seq<char>, needle: Seq<char>, at: int) -> bool {
    &&& 0 <= at
    &&& at + needle.len() <= hay.len()
    &&& hay.subrange(at, at + needle.len()) == needle
}

/// Whether `needle` stands somewhere in `hay`. The empty text stands in every
/// text.
pub open spec fn contains_text(hay: Seq<char>, needle: Seq<char>) -> bool {
    exists|at: int| occurs_at(hay, needle, at)
}

/// Whether `needle` stands somewhere in `hay` when case is ignored.
pub open spec fn contains_ignoring_case(hay: Seq<char>, needle: Seq<char>) -> bool {
    contains_text(lowercase(hay), lowercase(needle))
}

/// `s` with every occurrence of `from` replaced by `to`, found from left to
/// right and not overlapping. An empty `from` occurs nowhere.
pub open spec fn replaced(s: Seq<char>, from: Seq<char>, to: Seq<char>) -> Seq<char>
    decreases s.len(),
{
    if from.len() == 0 || s.len() < from.len() {
        s
    } else if s.subrange(0, from.len() as int) == from {
        to + replaced(s.subrange(from.len() as int, s.len() as int), from, to)
    } else {
        seq![s[0]] + replaced(s.subrange(1, s.len() as int), from, to)
    }
}

/// The text that bytes encode, if they are well-formed UTF-8.
pub open spec fn decoded(bytes: Seq<u8>) -> Option<Seq<char>> {
    if valid_utf8(bytes) {
        Some(decode_utf8(bytes))
    } else {
        None
    }
}

/// Reads bytes as text, if they are well-formed UTF-8.
pub fn decode(bytes: &Vec<u8>) -> (text: Option<String>)
    ensures
        text_of(text) == decoded(bytes@),
{
    match core::str::from_utf8(bytes.as_slice()) {
        Ok(s) => Some(String::from_str(s)),
        Err(_) => None,
    }
}

/// The characters of `s`, in order.
pub fn chars_of(s: &str) -> (v: Vec<char>)
    ensures
        v@ == s@,
{
    let mut v: Vec<char> = Vec::new();
    for c in it: s.chars()
        invariant
            v@ == it.history(),
            it.seq() == s@,
    {
        v.push(c);
    }
    v
}

/// Appends the characters `v[from..to]` to `out`.
pub fn push_chars(out: &mut String, v: &Vec<char>, from: usize, to: usize)
    requires
        from <= to <= v.len(),
    ensures
        final(out)@ == old(out)@ + v@.subrange(from as int, to as int),
{
    let mut i: usize = from;
    while i < to
        invariant
            from <= i <= to <= v.len(),
            out@ == old(out)@ + v@.subrange(from as int, i as int),
        decreases to - i,
    {
        out.push(v[i]);
        i += 1;
    }
}

/// `prefix` followed by `rest`.
pub fn joined(prefix: &str, rest: &str) -> (s: String)
    ensures
        s@ == prefix@ + rest@,
{
    let mut s = String::from_str(prefix);
    s.append(rest);
    s
}

/// A copy of each text of a list.
pub fn clone_texts(list: &Vec<String>) -> (copy: Vec<String>)
    ensures
        texts(copy@) == texts(list@),
{
    let mut copy: Vec<String> = Vec::new();
    let mut i: usize = 0;
    while i < list.len()
        invariant
            i <= list.len(),
            texts(copy@) == texts(list@).subrange(0, i as int),
        decreases list.len() - i,
    {
        let ghost before = copy@;
        copy.push(list[i].clone());
        assert(texts(copy@) == texts(before).push(list@[i as int]@));
        i += 1;
    }
    copy
}

/// Whether two texts hold the same characters.
pub fn same_text(a: &str, b: &str) -> (r: bool)
    ensures
        r == (a@ == b@),
{
    let x = chars_of(a);
    let y = chars_of(b);
    if x.len() != y.len() {
        return false;
    }
    let mut i: usize = 0;
    while i < x.len()
        invariant
            i <= x.len(),
            x.len() == y.len(),
            x@ == a@,
            y@ == b@,
            x@.subrange(0, i as int) == y@.subrange(0, i as int),
        decreases x.len() - i,
    {
        if x[i] != y[i] {
            return false;
        }
        i += 1;
    }
    assert(x@ == x@.subrange(0, x.len() as int));
    assert(y@ == y@.subrange(0, y.len() as int));
    true
}

/// Whether `list` holds a text with the characters of `wanted`.
pub fn list_contains(list: &Vec<String>, wanted: &str) -> (r: bool)
    ensures
        r == texts(list@).contains(wanted@),
{
    let mut i: usize = 0;
    while i < list.len()
        invariant
            i <= list.len(),
            forall|j: int| 0 <= j < i ==> texts(list@)[j] != wanted@,
        decreases list.len() - i,
    {
        if same_text(list[i].as_str(), wanted) {
            assert(texts(list@)[i as int] == wanted@);
            return true;
        }
        i += 1;
    }
    false
}

/// Whether `needle` stands in `hay` at position `at`.
pub fn matches_at(hay: &Vec<char>, needle: &Vec<char>, at: usize) -> (r: bool)
    ensures
        r == occurs_at(hay@, needle@, at as int),
{
    if needle.len() > hay.len() || at > hay.len() - needle.len() {
        return false;
    }
    let mut k: usize = 0;
    while k < needle.len()
        invariant
            k <= needle.len(),
            at + needle.len() <= hay.len(),
            hay@.subrange(at as int, at + k) == needle@.subrange(0, k as int),
        decreases needle.len() - k,
    {
        if hay[at + k] != needle[k] {
            return false;
        }
        k += 1;
    }
    assert(needle@ == needle@.subrange(0, needle.len() as int));
    true
}

/// Whether `needle` stands somewhere in `hay`.
pub fn contains(hay: &str, needle: &str) -> (r: bool)
    ensures
        r == contains_text(hay@, needle@),
{
    let h = chars_of(hay);
    let n = chars_of(needle);
    if n.len() > h.len() {
        return false;
    }
    if n.len() == 0 {
        assert(hay@.subrange(0, 0) == needle@);
        assert(occurs_at(hay@, needle@, 0));
        return true;
    }
    let last: usize = h.len() - n.len();
    let mut at: usize = 0;
    while at <= last
        invariant
            at <= last + 1,
            last == h.len() - n.len(),
            0 < n.len() <= h.len(),
            h@ == hay@,
            n@ == needle@,
            forall|j: int| 0 <= j < at ==> !occurs_at(hay@, needle@, j),
        decreases last + 1 - at,
    {
        if matches_at(&h, &n, at) {
            return true;
        }
        at += 1;
    }
    false
}

/// Whether `needle` stands somewhere in `hay` when case is ignored.
pub fn contains_ignore_case(hay: &str, needle: &str) -> (r: bool)
    ensures
        r == contains_ignoring_case(hay@, needle@),
{
    let h = hay.to_lowercase();
    let n = needle.to_lowercase();
    contains(h.as_str(), n.as_str())
}

/// `s` with every occurrence of `from` replaced by `to`.
pub fn replace_all(s: &str, from: &str, to: &str) -> (out: String)
    ensures
        out@ == replaced(s@, from@, to@),
{
    let text = chars_of(s);
    let pattern = chars_of(from);
    let mut out = String::new();
    let n: usize = text.len();
    if pattern.len() == 0 {
        return String::from_str(s);
    }
    assert(s@.subrange(0, n as int) == s@);
    let mut i: usize = 0;
    while i < n
        invariant
            i <= n,
            n == text.len(),
            text@ == s@,
            pattern@ == from@,
            pattern.len() > 0,
            out@ + replaced(s@.subrange(i as int, n as int), from@, to@) == replaced(
                s@,
                from@,
                to@,
            ),
        decreases n - i,
    {
        let ghost rest = s@.subrange(i as int, n as int);
        if matches_at(&text, &pattern, i) {
            assert(rest.subrange(0, from@.len() as int) == s@.subrange(
                i as int,
                i + from@.len(),
            ));
            assert(rest.subrange(from@.len() as int, rest.len() as int) == s@.subrange(
                i + from@.len(),
                n as int,
            ));
            out.append(to);
            i += pattern.len();
        } else {
            if n - i >= pattern.len() {
                assert(rest.subrange(0, from@.len() as int) == s@.subrange(
                    i as int,
                    i + from@.len(),
                ));
                assert(rest.subrange(1, rest.len() as int) == s@.subrange(i + 1, n as int));
                out.push(text[i]);
                i += 1;
            } else {
                push_chars(&mut out, &text, i, n);
                i = n;
            }
        }
    }
    out
}

} // verus!
