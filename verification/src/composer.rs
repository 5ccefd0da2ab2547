//! The reply composer: the rewritten links, one per line.

use crate::text::{chars_of, push_all, string_of};
use vstd::prelude::*;

verus! {

/// The lines joined by a newline between each two: nothing before the first,
/// nothing after the last. No line gives the empty text.
pub open spec fn joined(lines: Seq<Seq<char>>) -> Seq<char>
    decreases lines.len(),
{
    if lines.len() == 0 {
        Seq::empty()
    } else if lines.len() == 1 {
        lines[0]
    } else {
        joined(lines.drop_last()) + seq!['\n'] + lines.last()
    }
}

/// The payload of the reply: the links in the order given, joined by newlines.
///
/// A payload is composed for every list, the empty one too: its payload is the
/// empty text, not `None`. A message that names one of the hosts without
/// holding a link is thus answered with an empty payload; whether such a
/// payload is sent is the caller's business.
pub fn compose(urls: &Vec<String>) -> (payload: Option<String>)
    ensures
        payload matches Some(text) && text@ == joined(urls.deep_view()),
{
    let mut out: Vec<char> = Vec::new();
    let mut i: usize = 0;
    while i < urls.len()
        invariant
            i <= urls.len(),
            out@ == joined(urls.deep_view().take(i as int)),
        decreases urls.len() - i,
    {
        assert(urls.deep_view().take(i + 1).drop_last() =~= urls.deep_view().take(i as int));
        if i > 0 {
            out.push('\n');
        }
        push_all(&mut out, &chars_of(urls[i].as_str()));
        i += 1;
    }
    assert(urls.deep_view().take(urls@.len() as int) =~= urls.deep_view());
    Some(string_of(&out))
}

} // verus!
