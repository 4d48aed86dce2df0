//! Character-level building blocks shared by the renderers.

use vstd::prelude::*;
use vstd::std_specs::iter::IteratorSpec;
use vstd::string::StringExecFns;

verus! {

/// `n` copies of `c`.
pub open spec fn repeat(c: char, n: nat) -> Seq<char> {
    Seq::new(n, |i: int| c)
}

/// `s` with every occurrence of `from` replaced by `to`.
pub open spec fn replace_char(s: Seq<char>, from: char, to: char) -> Seq<char> {
    s.map_values(
        |c: char|
            if c == from {
                to
            } else {
                c
            },
    )
}

/// The upper-case form of an ASCII lower-case letter; any other character
/// is left alone.
pub open spec fn upper_ascii_char(c: char) -> char {
    if 'a' <= c && c <= 'z' {
        ((c as u8) - 32) as char
    } else {
        c
    }
}

/// `s` with its ASCII lower-case letters turned into upper case.
pub open spec fn upper_ascii(s: Seq<char>) -> Seq<char> {
    s.map_values(|c: char| upper_ascii_char(c))
}

/// Appends one character to `text`.
///
/// Trusted: stands for `String::push`, which the standard library documents
/// as appending the given character to the end of the string.
#[verifier::external_body]
pub(crate) fn push_char(text: &mut String, c: char)
    ensures
        final(text)@ == old(text)@.push(c),
{
    text.push(c)
}

/// Appends `text` where `shown` holds.
pub(crate) fn push_if(writer: &mut String, shown: bool, text: &str)
    ensures
        final(writer)@ == old(writer)@ + if shown {
            text@
        } else {
            Seq::empty()
        },
{
    if shown {
        writer.append(text);
    }
}

/// Appends `n` copies of `c` to `text`.
pub(crate) fn push_repeated(text: &mut String, c: char, n: usize)
    ensures
        final(text)@ == old(text)@ + repeat(c, n as nat),
{
    let mut i: usize = 0;
    while i < n
        invariant
            i <= n,
            text@ == old(text)@ + repeat(c, i as nat),
        decreases n - i,
    {
        push_char(text, c);
        i += 1;
    }
}

/// Appends `s` to `text`, writing `to` wherever `s` holds `from`.
pub(crate) fn push_replaced(text: &mut String, s: &str, from: char, to: char)
    ensures
        final(text)@ == old(text)@ + replace_char(s@, from, to),
{
    broadcast use vstd::string::axiom_spec_iter;

    for c in it: s.chars()
        invariant
            it.seq() == s@,
            text@ == old(text)@ + replace_char(s@.take(it.index()), from, to),
    {
        assert(s@.take(it.index() + 1) == s@.take(it.index()).push(c));
        if c == from {
            push_char(text, to);
        } else {
            push_char(text, c);
        }
    }
    assert(s@.take(s@.len() as int) == s@);
}

/// The upper-case form of an ASCII lower-case letter; any other character
/// is returned as it is.
pub(crate) fn to_upper_ascii_char(c: char) -> (u: char)
    ensures
        u == upper_ascii_char(c),
{
    if 'a' <= c && c <= 'z' {
        ((c as u8) - 32) as char
    } else {
        c
    }
}

/// Appends `s` to `text` with its ASCII lower-case letters in upper case.
pub(crate) fn push_upper_ascii(text: &mut String, s: &str)
    ensures
        final(text)@ == old(text)@ + upper_ascii(s@),
{
    broadcast use vstd::string::axiom_spec_iter;

    for c in it: s.chars()
        invariant
            it.seq() == s@,
            text@ == old(text)@ + upper_ascii(s@.take(it.index())),
    {
        assert(s@.take(it.index() + 1) == s@.take(it.index()).push(c));
        push_char(text, to_upper_ascii_char(c));
    }
    assert(s@.take(s@.len() as int) == s@);
}

/// Whether two strings hold the same characters.
pub(crate) fn same_text(a: &str, b: &str) -> (same: bool)
    ensures
        same == (a@ == b@),
{
    broadcast use vstd::string::axiom_spec_iter, vstd::string::next_postcondition;

    let mut left = a.chars();
    let mut right = b.chars();
    let ghost mut seen: int = 0;
    loop
        invariant
            0 <= seen <= a@.len(),
            seen <= b@.len(),
            left.remaining() == a@.skip(seen),
            right.remaining() == b@.skip(seen),
            a@.take(seen) == b@.take(seen),
            left.obeys_prophetic_iter_laws(),
            right.obeys_prophetic_iter_laws(),
        decreases a@.len() - seen,
    {
        let x = left.next();
        let y = right.next();
        match (x, y) {
            (Some(c), Some(d)) => {
                if c != d {
                    assert(a@[seen] != b@[seen]);
                    return false;
                }
                proof {
                    assert(a@.take(seen + 1) == a@.take(seen).push(c));
                    assert(b@.take(seen + 1) == b@.take(seen).push(d));
                    assert(a@.skip(seen).drop_first() == a@.skip(seen + 1));
                    assert(b@.skip(seen).drop_first() == b@.skip(seen + 1));
                    seen = seen + 1;
                }
            },
            (None, None) => {
                assert(a@.take(seen) == a@);
                assert(b@.take(seen) == b@);
                return true;
            },
            _ => {
                assert(a@.len() != b@.len());
                return false;
            },
        }
    }
}

} // verus!
