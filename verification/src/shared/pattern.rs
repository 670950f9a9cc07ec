use vstd::prelude::*;
use crate::shared::text::text_of;

verus! {

/// What the first capture group holds in the leftmost match of a regular
/// expression in a text, if the expression is well-formed, matches, and its
/// first group takes part in the match.
pub uninterp spec fn first_group(pattern: Seq<char>, text: Seq<char>) -> Option<Seq<char>>;

/// The text that bytes stand for in the GBK encoding, or in the encoding that
/// a byte order mark at their head names; malformed sequences read as the
/// replacement character.
pub uninterp spec fn gbk_text(bytes: Seq<u8>) -> Seq<char>;

/// The longest input that the decoder can size its output for.
pub const MAX_DECODER_INPUT: usize = usize::MAX / 8;

/// Compiles the expression with `regex::Regex::new` and searches the text
/// with `Regex::captures`, which finds the leftmost match. An expression that
/// does not compile finds nothing.
#[verifier::external_body]
pub(crate) fn regex_capture(pattern: &str, text: &str) -> (group: Option<String>)
    ensures
        text_of(group) == first_group(pattern@, text@),
{
    let expression = regex::Regex::new(pattern).ok()?;
    expression.captures(text).and_then(|found| found.get(1)).map(|group| group.as_str().to_string())
}

/// Decodes the bytes with `encoding_rs::GBK.decode`, which sniffs for a byte
/// order mark and never fails. The decoder panics where it cannot size its
/// output, so such lengths are left out.
#[verifier::external_body]
pub(crate) fn gbk_decode(bytes: &[u8]) -> (text: String)
    requires
        bytes@.len() <= MAX_DECODER_INPUT,
    ensures
        text@ == gbk_text(bytes@),
{
    let (text, _, _) = encoding_rs::GBK.decode(bytes);
    text.into_owned()
}

} // verus!
