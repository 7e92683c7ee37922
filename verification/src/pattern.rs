//! Matching text against a regular expression, by the `onig` crate.

use vstd::prelude::*;
use vstd::utf8::encode_utf8;

verus! {

/// What `onig` makes of `pattern` and `text`: `None` where the pattern does
/// not compile or matching breaks off; else whether the pattern matches at
/// the start of the text, and how many bytes the match spans.
pub uninterp spec fn matched_len(pattern: Seq<char>, text: Seq<char>) -> Option<Option<usize>>;

/// Whether `pattern` matches `text` from its first byte to its last.
pub open spec fn matches_whole(pattern: Seq<char>, text: Seq<char>) -> bool {
    matched_len(pattern, text) == Some(Some(encode_utf8(text).len() as usize))
}

/// Calls `onig::Regex::new` on `pattern` and, where that compiles,
/// `match_with_param` on `text`, from offset 0, with the option that asks
/// for a match of the whole string and the default limits.
///
/// Trusted: the result is a function of the two strings alone.
#[verifier::external_body]
pub(crate) fn match_len(pattern: &str, text: &str) -> (r: Option<Option<usize>>)
    ensures
        r == matched_len(pattern@, text@),
{
    let regex = onig::Regex::new(pattern).ok()?;
    let whole = onig::SearchOptions::SEARCH_OPTION_WHOLE_STRING;
    regex.match_with_param(text, 0, whole, None, onig::MatchParam::default()).ok()
}

/// Whether `outcome`, the result of matching a pattern against `text`, is a
/// match of the whole text.
pub fn is_whole_match(outcome: Option<Option<usize>>, text: &str) -> (b: bool)
    ensures
        b == (outcome == Some(Some(encode_utf8(text@).len() as usize))),
{
    match outcome {
        Some(Some(len)) => len == text.len(),
        _ => false,
    }
}

/// Whether `pattern` matches `text` from its first byte to its last. A
/// pattern that does not compile matches nothing.
pub fn is_match(pattern: &str, text: &str) -> (b: bool)
    ensures
        b == matches_whole(pattern@, text@),
{
    is_whole_match(match_len(pattern, text), text)
}

} // verus!
