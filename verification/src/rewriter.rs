//! The domain rewriter: two literal replacements over the whole text of a link,
//! in a fixed order.

use crate::text::{
    chars_of, contains, lemma_replace_all_absent, occurs_at, replace_all, replaced, string_of,
};
use vstd::prelude::*;

verus! {

/// The rewritten form of a link: every `twitter.com` becomes `fxtwitter.com`,
/// and after that every `x.com` becomes `fxtwitter.com`. The text is not read
/// as a URL: an occurrence in the path or the query is replaced like one in the
/// host.
pub open spec fn rewritten(url: Seq<char>) -> Seq<char> {
    replace_all(
        replace_all(url, "twitter.com"@, "fxtwitter.com"@),
        "x.com"@,
        "fxtwitter.com"@,
    )
}

/// The rewritten form of each link, in the same order.
pub open spec fn rewritten_each(urls: Seq<Seq<char>>) -> Seq<Seq<char>> {
    urls.map_values(|url: Seq<char>| rewritten(url))
}

/// Rewrites one link.
pub fn rewrite(url: &str) -> (out: String)
    ensures
        out@ == rewritten(url@),
{
    let twitter = chars_of("twitter.com");
    let x = chars_of("x.com");
    let fx = chars_of("fxtwitter.com");
    let first = replaced(&chars_of(url), &twitter, &fx);
    let second = replaced(&first, &x, &fx);
    string_of(&second)
}

/// Rewrites every link: as many come out as went in, in the same order.
pub fn rewrite_all(urls: &Vec<String>) -> (out: Vec<String>)
    ensures
        out.deep_view() == rewritten_each(urls.deep_view()),
{
    let mut out: Vec<String> = Vec::new();
    let mut i: usize = 0;
    while i < urls.len()
        invariant
            i <= urls.len(),
            out.len() == i,
            forall|j: int| 0 <= j < i ==> out@[j]@ == rewritten(urls@[j]@),
        decreases urls.len() - i,
    {
        out.push(rewrite(urls[i].as_str()));
        i += 1;
    }
    out
}

/// A link that holds neither `twitter.com` nor `x.com` is left as it is.
pub proof fn law_rewrite_keeps_other_text(url: Seq<char>)
    requires
        !contains(url, "twitter.com"@),
        !contains(url, "x.com"@),
    ensures
        rewritten(url) == url,
{
    lemma_replace_all_absent(url, "twitter.com"@, "fxtwitter.com"@);
    lemma_replace_all_absent(url, "x.com"@, "fxtwitter.com"@);
}

/// Text that holds `fxtwitter.com` holds `twitter.com` too, two characters
/// further on. So the rewriting of a link is never a text that
/// `law_rewrite_keeps_other_text` speaks of: rewriting it once more puts
/// another `fx` in front of the host.
pub proof fn lemma_rewritten_host_holds_twitter_host(url: Seq<char>)
    requires
        contains(url, "fxtwitter.com"@),
    ensures
        contains(url, "twitter.com"@),
{
    reveal_strlit("fxtwitter.com");
    reveal_strlit("twitter.com");
    let at = choose|at: int| occurs_at(url, "fxtwitter.com"@, at);
    let window = url.subrange(at, at + 13);
    assert(url.subrange(at + 2, at + 13) =~= window.subrange(2, 13));
    assert(window.subrange(2, 13) =~= "twitter.com"@);
    assert(occurs_at(url, "twitter.com"@, at + 2));
}

} // verus!
