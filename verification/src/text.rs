//! Character-level helpers on strings.

use vstd::prelude::*;

verus! {

/// An optional text, as plain characters.
pub open spec fn text_view(text: Option<String>) -> Option<Seq<char>> {
    match text {
        Some(t) => Some(t@),
        None => None,
    }
}

/// The test that a character differs from `c`.
pub open spec fn differs_from(c: char) -> spec_fn(char) -> bool {
    |x: char| x != c
}

/// `s` with every occurrence of `c` left out.
pub open spec fn without_char(s: Seq<char>, c: char) -> Seq<char> {
    s.filter(differs_from(c))
}

/// `s` with every occurrence of `from` turned into `to`.
pub open spec fn with_char_replaced(s: Seq<char>, from: char, to: char) -> Seq<char> {
    s.map_values(|x: char| if x == from { to } else { x })
}

/// Appends one character to a string.
///
/// Trusted: `String::push` of std, which adds the character at the end and
/// leaves what was there untouched.
#[verifier::external_body]
pub(crate) fn push_char(s: &mut String, c: char)
    ensures
        final(s)@ == old(s)@.push(c),
{
    s.push(c)
}

/// The characters of `s`, in order.
pub fn chars_of(s: &str) -> (out: Vec<char>)
    ensures
        out@ == s@,
{
    let mut out: Vec<char> = Vec::new();
    for c in it: s.chars()
        invariant
            out@ == it.seq().take(it.index()),
    {
        out.push(c);
    }
    out
}

/// A copy of `s` without the character `c`.
pub fn remove_char(s: &str, c: char) -> (out: String)
    ensures
        out@ == without_char(s@, c),
        !out@.contains(c),
{
    let mut out = String::new();
    for x in it: s.chars()
        invariant
            out@ == without_char(it.seq().take(it.index()), c),
    {
        proof {
            let done = it.seq().take(it.index());
            assert(it.seq().take(it.index() + 1) == done.push(x));
            done.lemma_filter_push(x, differs_from(c));
        }
        if x != c {
            push_char(&mut out, x);
        }
    }
    proof {
        assert(s@.take(s@.len() as int) =~= s@);
        lemma_without_char_absent(s@, c);
    }
    out
}

/// What `without_char` returns never holds the character that was removed.
pub proof fn lemma_without_char_absent(s: Seq<char>, c: char)
    ensures
        !without_char(s, c).contains(c),
{
    let keep = differs_from(c);
    if s.filter(keep).contains(c) {
        let i = choose|i: int| 0 <= i < s.filter(keep).len() && s.filter(keep)[i] == c;
        s.lemma_filter_pred(keep, i);
    }
}

/// Removing a character from a text that does not hold it changes nothing.
pub proof fn lemma_without_char_same(s: Seq<char>, c: char)
    requires
        !s.contains(c),
    ensures
        without_char(s, c) == s,
    decreases s.len(),
{
    reveal(Seq::filter);
    if s.len() > 0 {
        let front = s.drop_last();
        assert(!front.contains(c)) by {
            if front.contains(c) {
                let i = choose|i: int| 0 <= i < front.len() && front[i] == c;
                assert(s[i] == c);
            }
        }
        lemma_without_char_same(front, c);
        assert(s.last() != c);
        assert(front.push(s.last()) =~= s);
    }
}

/// A copy of `s` in which each `from` has become `to`.
pub fn replace_char(s: &str, from: char, to: char) -> (out: String)
    ensures
        out@ == with_char_replaced(s@, from, to),
{
    let mut out = String::new();
    for x in it: s.chars()
        invariant
            out@ == with_char_replaced(it.seq().take(it.index()), from, to),
    {
        proof {
            assert(it.seq().take(it.index() + 1) == it.seq().take(it.index()).push(x));
        }
        if x == from {
            push_char(&mut out, to);
        } else {
            push_char(&mut out, x);
        }
    }
    proof {
        assert(s@.take(s@.len() as int) =~= s@);
    }
    out
}

} // verus!
