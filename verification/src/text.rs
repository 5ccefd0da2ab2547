//! Substring search and replacement over sequences of characters, and the
//! conversions between strings and character vectors that the rest of the
//! crate builds on.

use vstd::prelude::*;

verus! {

/// `needle` stands in `hay` at position `at`.
pub open spec fn occurs_at(hay: Seq<char>, needle: Seq<char>, at: int) -> bool {
    &&& 0 <= at
    &&& at + needle.len() <= hay.len()
    &&& hay.subrange(at, at + needle.len()) == needle
}

/// `needle` stands somewhere in `hay`.
pub open spec fn contains(hay: Seq<char>, needle: Seq<char>) -> bool {
    exists|at: int| occurs_at(hay, needle, at)
}

/// `hay` with every occurrence of `from` replaced by `to`. Occurrences are
/// taken from the left and do not overlap: after one is replaced, the search
/// goes on behind it, and what was put in is not searched again. With an empty
/// `from` there is nothing to replace, and the result is `hay`.
pub open spec fn replace_all(hay: Seq<char>, from: Seq<char>, to: Seq<char>) -> Seq<char>
    decreases hay.len(),
{
    if from.len() == 0 || hay.len() == 0 {
        hay
    } else if occurs_at(hay, from, 0) {
        to + replace_all(hay.skip(from.len() as int), from, to)
    } else {
        seq![hay[0]] + replace_all(hay.skip(1), from, to)
    }
}

/// Text without an occurrence of `from` is left as it is.
pub proof fn lemma_replace_all_absent(hay: Seq<char>, from: Seq<char>, to: Seq<char>)
    requires
        !contains(hay, from),
    ensures
        replace_all(hay, from, to) == hay,
    decreases hay.len(),
{
    if from.len() > 0 && hay.len() > 0 {
        let rest = hay.skip(1);
        assert forall|at: int| !occurs_at(rest, from, at) by {
            if occurs_at(rest, from, at) {
                assert(rest.subrange(at, at + from.len()) == hay.subrange(
                    at + 1,
                    at + 1 + from.len(),
                ));
                assert(occurs_at(hay, from, at + 1));
            }
        }
        lemma_replace_all_absent(rest, from, to);
    }
}

/// The characters of a string, in order.
pub fn chars_of(text: &str) -> (out: Vec<char>)
    ensures
        out@ == text@,
{
    let mut out: Vec<char> = Vec::new();
    for c in it: text.chars()
        invariant
            out@ == it.seq().take(it.index() as int),
    {
        out.push(c);
    }
    out
}

/// `String::push` of std puts one character at the end of the string and
/// leaves what stood before it as it was.
#[verifier::external_body]
fn push_char(text: &mut String, c: char)
    ensures
        final(text)@ == old(text)@.push(c),
{
    text.push(c);
}

/// The string made of the given characters, in order.
pub fn string_of(chars: &Vec<char>) -> (out: String)
    ensures
        out@ == chars@,
{
    let mut out = String::new();
    let mut i: usize = 0;
    while i < chars.len()
        invariant
            i <= chars.len(),
            out@ == chars@.take(i as int),
        decreases chars.len() - i,
    {
        push_char(&mut out, chars[i]);
        i += 1;
    }
    out
}

/// Puts the characters of `more` behind those that `out` holds.
pub fn push_all(out: &mut Vec<char>, more: &Vec<char>)
    ensures
        final(out)@ == old(out)@ + more@,
{
    let ghost start = out@;
    let mut k: usize = 0;
    while k < more.len()
        invariant
            k <= more.len(),
            out@ == start + more@.take(k as int),
        decreases more.len() - k,
    {
        out.push(more[k]);
        k += 1;
    }
}

/// Whether `needle` stands in `hay` at position `at`.
pub fn matches_at(hay: &Vec<char>, needle: &Vec<char>, at: usize) -> (found: bool)
    ensures
        found == occurs_at(hay@, needle@, at as int),
{
    if at > hay.len() || needle.len() > hay.len() - at {
        return false;
    }
    let mut k: usize = 0;
    while k < needle.len()
        invariant
            k <= needle.len(),
            at + needle.len() <= hay.len(),
            forall|j: int| 0 <= j < k ==> hay@[at + j] == needle@[j],
        decreases needle.len() - k,
    {
        if hay[at + k] != needle[k] {
            assert(hay@.subrange(at as int, at + needle.len())[k as int] == hay@[at + k]);
            return false;
        }
        k += 1;
    }
    assert(hay@.subrange(at as int, at + needle.len()) =~= needle@);
    true
}

/// Whether `needle` stands somewhere in `hay`.
pub fn has_occurrence(hay: &Vec<char>, needle: &Vec<char>) -> (found: bool)
    ensures
        found == contains(hay@, needle@),
{
    if needle.len() > hay.len() {
        return false;
    }
    let last: usize = hay.len() - needle.len();
    let mut at: usize = 0;
    while at < last
        invariant
            at <= last,
            last + needle.len() == hay.len(),
            forall|j: int| 0 <= j < at ==> !occurs_at(hay@, needle@, j),
        decreases last - at,
    {
        if matches_at(hay, needle, at) {
            return true;
        }
        at += 1;
    }
    matches_at(hay, needle, last)
}

/// `hay` with every occurrence of `from` replaced by `to`.
pub fn replaced(hay: &Vec<char>, from: &Vec<char>, to: &Vec<char>) -> (out: Vec<char>)
    ensures
        out@ == replace_all(hay@, from@, to@),
{
    let mut out: Vec<char> = Vec::new();
    if from.len() == 0 {
        push_all(&mut out, hay);
        return out;
    }
    let mut i: usize = 0;
    proof {
        assert(hay@.skip(0) =~= hay@);
    }
    while i < hay.len()
        invariant
            i <= hay.len(),
            from@.len() > 0,
            replace_all(hay@, from@, to@) == out@ + replace_all(hay@.skip(i as int), from@, to@),
        decreases hay.len() - i,
    {
        let ghost rest = hay@.skip(i as int);
        let ghost before = out@;
        if matches_at(hay, from, i) {
            proof {
                assert(rest.subrange(0, from@.len() as int) =~= hay@.subrange(
                    i as int,
                    i + from@.len(),
                ));
                assert(rest.skip(from@.len() as int) =~= hay@.skip(i + from@.len()));
            }
            push_all(&mut out, to);
            i += from.len();
            assert(out@ + replace_all(hay@.skip(i as int), from@, to@) =~= before + (to@
                + replace_all(hay@.skip(i as int), from@, to@)));
        } else {
            proof {
                if occurs_at(rest, from@, 0) {
                    assert(rest.subrange(0, from@.len() as int) =~= hay@.subrange(
                        i as int,
                        i + from@.len(),
                    ));
                }
                assert(rest.skip(1) =~= hay@.skip(i + 1));
            }
            out.push(hay[i]);
            i += 1;
            assert(out@ + replace_all(hay@.skip(i as int), from@, to@) =~= before + (seq![
                hay@[i - 1],
            ] + replace_all(hay@.skip(i as int), from@, to@)));
        }
    }
    out
}

} // verus!
