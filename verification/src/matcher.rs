//! The URL matcher: a cheap test for the two hosts, and the pattern that picks
//! the links out of a message.

use crate::text::{chars_of, contains, has_occurrence, occurs_at};
use vstd::prelude::*;

verus! {

/// The pattern of a link: the scheme, one of the two hosts, and then one or
/// more characters that are not whitespace, as many as there are.
pub const LINK_PATTERN: &'static str = r"(https://(x\.com|twitter\.com)[^\s]+)";

/// The pattern could not be built. This says something about the pattern, never
/// about the message that was to be searched.
#[derive(Debug, Clone, PartialEq, Eq)]
pub struct PatternCompileError {
    /// What the pattern compiler reported.
    pub detail: String,
}

/// The text holds `https://x.com` or `https://twitter.com`.
pub open spec fn has_known_host(text: Seq<char>) -> bool {
    contains(text, "https://x.com"@) || contains(text, "https://twitter.com"@)
}

/// The pre-filter: whether the text holds `https://x.com` or
/// `https://twitter.com` anywhere. Text that fails it is never searched with
/// the pattern.
pub fn mentions_known_host(text: &str) -> (hit: bool)
    ensures
        hit == has_known_host(text@),
{
    let hay = chars_of(text);
    let short = chars_of("https://x.com");
    if has_occurrence(&hay, &short) {
        return true;
    }
    let long = chars_of("https://twitter.com");
    has_occurrence(&hay, &long)
}

#[verifier::external_type_specification]
#[verifier::external_body]
pub struct ExRegexError(regex::Error);

/// Whether the regex crate compiles `pattern`: the answer of its pattern
/// compiler under the limits it sets by default, in the build of the crate
/// that this library is linked with. A pattern is turned down for its syntax
/// or for the size of what it compiles to.
pub uninterp spec fn regex_compiles(pattern: Seq<char>) -> bool;

/// What the regex crate finds with `pattern` in `haystack`: the text of each
/// match, whole, from the left, no two overlapping. It is defined for the
/// patterns that the crate compiles.
pub uninterp spec fn regex_captures(pattern: Seq<char>, haystack: Seq<char>) -> Seq<Seq<char>>;

/// The `texts` stand in `hay` one behind the other: the first at or behind
/// `from`, each of the others at or behind the end of the one before it.
pub open spec fn found_in_order(hay: Seq<char>, texts: Seq<Seq<char>>, from: int) -> bool
    decreases texts.len(),
{
    texts.len() == 0 || exists|at: int|
        from <= at && #[trigger] occurs_at(hay, texts[0], at) && found_in_order(
            hay,
            texts.drop_first(),
            at + texts[0].len(),
        )
}

/// Texts that stand in `hay` one behind the other are each a piece of `hay`.
pub proof fn law_found_texts_are_pieces(hay: Seq<char>, texts: Seq<Seq<char>>, from: int, i: int)
    requires
        found_in_order(hay, texts, from),
        0 <= i < texts.len(),
    ensures
        contains(hay, texts[i]),
    decreases texts.len(),
{
    let at = choose|at: int|
        from <= at && #[trigger] occurs_at(hay, texts[0], at) && found_in_order(
            hay,
            texts.drop_first(),
            at + texts[0].len(),
        );
    if i > 0 {
        law_found_texts_are_pieces(hay, texts.drop_first(), at + texts[0].len(), i - 1);
    }
}

/// `Regex::new` and `Regex::captures_iter` of the regex crate. The pattern is
/// compiled under the crate's default limits; where that fails, the
/// compiler's error comes back. Where it succeeds, the result holds group 0 of
/// every capture, which is the text of the whole match, in the order the
/// iterator gives them: each is a piece of the haystack, and they follow one
/// another in it without overlap.
#[verifier::external_body]
fn capture_all(pattern: &str, haystack: &str) -> (found: Result<Vec<String>, regex::Error>)
    ensures
        found is Ok <==> regex_compiles(pattern@),
        found matches Ok(texts) ==> texts.deep_view() == regex_captures(pattern@, haystack@),
        found matches Ok(texts) ==> found_in_order(haystack@, texts.deep_view(), 0),
{
    let re = regex::Regex::new(pattern)?;
    Ok(re.captures_iter(haystack).map(|cap| cap[0].to_string()).collect())
}

/// The `Debug` text of a `regex::Error`. Nothing is claimed about what it says.
#[verifier::external_body]
fn describe(err: &regex::Error) -> String {
    format!("{:?}", err)
}

/// Every match of `pattern` in `text`, in order of appearance, or the error if
/// the pattern cannot be built. Whether it can be built depends on the pattern
/// alone, never on the text.
pub fn find_matches(pattern: &str, text: &str) -> (found: Result<
    Vec<String>,
    PatternCompileError,
>)
    ensures
        found is Ok <==> regex_compiles(pattern@),
        found matches Ok(texts) ==> texts.deep_view() == regex_captures(pattern@, text@),
        found matches Ok(texts) ==> found_in_order(text@, texts.deep_view(), 0),
{
    match capture_all(pattern, text) {
        Ok(texts) => Ok(texts),
        Err(err) => Err(PatternCompileError { detail: describe(&err) }),
    }
}

/// The links of `text`, in order of appearance, duplicates included. Each is a
/// piece of `text`, and no two overlap.
pub fn find_links(text: &str) -> (found: Result<Vec<String>, PatternCompileError>)
    ensures
        found is Ok <==> regex_compiles(LINK_PATTERN@),
        found matches Ok(links) ==> links.deep_view() == regex_captures(LINK_PATTERN@, text@),
        found matches Ok(links) ==> found_in_order(text@, links.deep_view(), 0),
{
    find_matches(LINK_PATTERN, text)
}

} // verus!
