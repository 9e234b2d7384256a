//! Reading a query parameter, and the page offset, out of a pagination link.

use crate::error::FetchError;
use crate::text::{chars_of, push_char, text_view};
use vstd::prelude::*;

verus! {

/// Where `c` first stands in `s`; the length of `s` if it stands nowhere.
pub open spec fn index_of(s: Seq<char>, c: char) -> int
    decreases s.len(),
{
    if s.len() == 0 {
        0
    } else if s[0] == c {
        0
    } else {
        1 + index_of(s.drop_first(), c)
    }
}

/// `index_of` gives a place within `s` or its length, the character stands
/// there, and it stands nowhere before.
pub proof fn lemma_index_of(s: Seq<char>, c: char)
    ensures
        0 <= index_of(s, c) <= s.len(),
        index_of(s, c) < s.len() ==> s[index_of(s, c)] == c,
        forall|j: int| 0 <= j < index_of(s, c) ==> s[j] != c,
    decreases s.len(),
{
    if s.len() > 0 && s[0] != c {
        lemma_index_of(s.drop_first(), c);
        let r = index_of(s.drop_first(), c);
        assert forall|j: int| 0 <= j < 1 + r implies s[j] != c by {
            if j > 0 {
                assert(s.drop_first()[j - 1] == s[j]);
            }
        }
    }
}

/// A place where the character stands, with none before it, is the one
/// `index_of` gives; so is the length, if the character stands nowhere.
pub proof fn lemma_index_of_is(s: Seq<char>, c: char, k: int)
    requires
        0 <= k <= s.len(),
        forall|j: int| 0 <= j < k ==> s[j] != c,
        k < s.len() ==> s[k] == c,
    ensures
        index_of(s, c) == k,
{
    lemma_index_of(s, c);
}

/// Whether `c` stands in `s`.
pub open spec fn has(s: Seq<char>, c: char) -> bool {
    index_of(s, c) < s.len()
}

/// `s` up to the first `c`; all of `s` if it holds none.
pub open spec fn before(s: Seq<char>, c: char) -> Seq<char> {
    s.take(index_of(s, c))
}

/// `s` behind the first `c`; nothing if it holds none.
pub open spec fn after(s: Seq<char>, c: char) -> Seq<char> {
    if has(s, c) {
        s.skip(index_of(s, c) + 1)
    } else {
        Seq::empty()
    }
}

/// The query of an address: what stands between its first `?` and the `#`
/// that follows, if one does.
pub open spec fn query_of(url: Seq<char>) -> Seq<char> {
    before(after(url, '?'), '#')
}

/// `s` with each escaped square bracket (`%5B`, `%5D`, in either case of the
/// letter) written as the bracket itself.
pub open spec fn unescape_brackets(s: Seq<char>) -> Seq<char>
    decreases s.len(),
{
    if s.len() == 0 {
        s
    } else if opens_escape(s, 'B', 'b') {
        seq!['['] + unescape_brackets(s.skip(3))
    } else if opens_escape(s, 'D', 'd') {
        seq![']'] + unescape_brackets(s.skip(3))
    } else {
        seq![s[0]] + unescape_brackets(s.skip(1))
    }
}

/// Whether `s` begins with `%5` and one of the two given letters.
pub open spec fn opens_escape(s: Seq<char>, upper: char, lower: char) -> bool {
    s.len() >= 3 && s[0] == '%' && s[1] == '5' && (s[2] == upper || s[2] == lower)
}

/// The value of the first parameter of `query` that is called `name`. The
/// parameters are parted by `&`; one is called by what stands before its
/// first `=`, brackets unescaped, and its value is what stands behind. A
/// parameter without `=` has no value and is passed over.
pub open spec fn parameter(query: Seq<char>, name: Seq<char>) -> Option<Seq<char>>
    decreases query.len(),
    via parameter_decreases
{
    let pair = before(query, '&');
    if has(pair, '=') && unescape_brackets(before(pair, '=')) == name {
        Some(after(pair, '='))
    } else if has(query, '&') {
        parameter(after(query, '&'), name)
    } else {
        None
    }
}

#[via_fn]
proof fn parameter_decreases(query: Seq<char>, name: Seq<char>) {
    lemma_index_of(query, '&');
}

/// Whether `c` is one of the ten decimal digits.
pub open spec fn is_digit(c: char) -> bool {
    '0' <= c <= '9'
}

/// The number that the digit `c` stands for.
pub open spec fn digit_value(c: char) -> int {
    c as u32 - '0' as u32
}

/// The number that the digits `s` write in base ten.
pub open spec fn decimal(s: Seq<char>) -> int
    decreases s.len(),
{
    if s.len() == 0 {
        0
    } else {
        decimal(s.drop_last()) * 10 + digit_value(s.last())
    }
}

/// Whether `s` is made of decimal digits, at least one.
pub open spec fn is_number(s: Seq<char>) -> bool {
    s.len() > 0 && forall|i: int| 0 <= i < s.len() ==> is_digit(#[trigger] s[i])
}

/// The number that `s` writes, if `s` is a number of at most 65535.
pub open spec fn decimal_u16(s: Seq<char>) -> Option<u16> {
    if is_number(s) && decimal(s) <= u16::MAX {
        Some(decimal(s) as u16)
    } else {
        None
    }
}

/// The name of the parameter that carries a page's offset.
pub open spec fn offset_parameter() -> Seq<char> {
    "page[offset]"@
}

/// The offset that a pagination link carries, if it carries one.
pub open spec fn offset_of(url: Seq<char>) -> Option<u16> {
    match parameter(query_of(url), offset_parameter()) {
        Some(value) => decimal_u16(value),
        None => None,
    }
}

/// Digits write no negative number, and no prefix of them writes a larger
/// number than the whole.
pub proof fn lemma_decimal_grows(s: Seq<char>, k: int)
    requires
        0 <= k <= s.len(),
        forall|i: int| 0 <= i < s.len() ==> is_digit(#[trigger] s[i]),
    ensures
        0 <= decimal(s.take(k)) <= decimal(s),
    decreases s.len(),
{
    if k == s.len() {
        assert(s.take(k) =~= s);
        if s.len() > 0 {
            lemma_decimal_grows(s.drop_last(), k - 1);
            assert(s.drop_last().take(k - 1) =~= s.drop_last());
            assert(is_digit(s[s.len() - 1]));
        }
    } else {
        lemma_decimal_grows(s.drop_last(), k);
        assert(s.drop_last().take(k) =~= s.take(k));
        assert(is_digit(s[s.len() - 1]));
    }
}

/// Finds the first `c` among the characters from `from` up to `to`.
fn find(chars: &Vec<char>, from: usize, to: usize, c: char) -> (at: usize)
    requires
        from <= to <= chars.len(),
    ensures
        from <= at <= to,
        at - from == index_of(chars@.subrange(from as int, to as int), c),
{
    let mut at = from;
    while at < to && chars[at] != c
        invariant
            from <= at <= to <= chars.len(),
            forall|j: int| from <= j < at ==> chars@[j] != c,
        decreases to - at,
    {
        at += 1;
    }
    proof {
        lemma_index_of_is(chars@.subrange(from as int, to as int), c, at - from);
    }
    at
}

/// The characters from `from` up to `to`, escaped brackets written out.
fn unescaped(chars: &Vec<char>, from: usize, to: usize) -> (out: Vec<char>)
    requires
        from <= to <= chars.len(),
    ensures
        out@ == unescape_brackets(chars@.subrange(from as int, to as int)),
{
    let mut out: Vec<char> = Vec::new();
    let mut i = from;
    while i < to
        invariant
            from <= i <= to <= chars.len(),
            unescape_brackets(chars@.subrange(from as int, to as int)) == out@
                + unescape_brackets(chars@.subrange(i as int, to as int)),
        decreases to - i,
    {
        let ghost rest = chars@.subrange(i as int, to as int);
        let ghost done = out@;
        let escaped = to - i >= 3 && chars[i] == '%' && chars[i + 1] == '5';
        if escaped && (chars[i + 2] == 'B' || chars[i + 2] == 'b') {
            out.push('[');
            proof {
                assert(rest.skip(3) =~= chars@.subrange(i + 3, to as int));
                assert(done + (seq!['['] + unescape_brackets(rest.skip(3))) =~= out@
                    + unescape_brackets(rest.skip(3)));
            }
            i += 3;
        } else if escaped && (chars[i + 2] == 'D' || chars[i + 2] == 'd') {
            out.push(']');
            proof {
                assert(rest.skip(3) =~= chars@.subrange(i + 3, to as int));
                assert(done + (seq![']'] + unescape_brackets(rest.skip(3))) =~= out@
                    + unescape_brackets(rest.skip(3)));
            }
            i += 3;
        } else {
            out.push(chars[i]);
            proof {
                assert(rest.skip(1) =~= chars@.subrange(i + 1, to as int));
                assert(done + (seq![rest[0]] + unescape_brackets(rest.skip(1))) =~= out@
                    + unescape_brackets(rest.skip(1)));
            }
            i += 1;
        }
    }
    out
}

/// Whether two texts hold the same characters.
fn same_chars(a: &Vec<char>, b: &Vec<char>) -> (same: bool)
    ensures
        same == (a@ == b@),
{
    if a.len() != b.len() {
        return false;
    }
    let mut i: usize = 0;
    while i < a.len()
        invariant
            i <= a.len() == b.len(),
            forall|j: int| 0 <= j < i ==> a@[j] == b@[j],
        decreases a.len() - i,
    {
        if a[i] != b[i] {
            return false;
        }
        i += 1;
    }
    assert(a@ =~= b@);
    true
}

/// The characters from `from` up to `to` as a string.
fn string_of(chars: &Vec<char>, from: usize, to: usize) -> (out: String)
    requires
        from <= to <= chars.len(),
    ensures
        out@ == chars@.subrange(from as int, to as int),
{
    let mut out = String::new();
    let mut i = from;
    while i < to
        invariant
            from <= i <= to <= chars.len(),
            out@ == chars@.subrange(from as int, i as int),
        decreases to - i,
    {
        push_char(&mut out, chars[i]);
        assert(chars@.subrange(from as int, i as int).push(chars@[i as int]) =~= chars@.subrange(
            from as int,
            i + 1,
        ));
        i += 1;
    }
    out
}

/// Looks a parameter up in the query of an address.
pub fn query_parameter(url: &str, name: &str) -> (value: Option<String>)
    ensures
        text_view(value) == parameter(query_of(url@), name@),
{
    let chars = chars_of(url);
    let wanted = chars_of(name);
    let n = chars.len();
    let mark = find(&chars, 0, n, '?');
    let start = if mark < n {
        mark + 1
    } else {
        n
    };
    assert(chars@.subrange(0, n as int) =~= chars@);
    assert(after(url@, '?') =~= chars@.subrange(start as int, n as int));
    let end = find(&chars, start, n, '#');
    let ghost query = chars@.subrange(start as int, end as int);
    assert(query_of(url@) =~= query);
    let mut p = start;
    loop
        invariant
            start <= p <= end <= n == chars.len(),
            wanted@ == name@,
            query_of(url@) == query,
            parameter(query, name@) == parameter(chars@.subrange(p as int, end as int), name@),
        decreases end - p,
    {
        let amp = find(&chars, p, end, '&');
        let ghost rest = chars@.subrange(p as int, end as int);
        let ghost pair = chars@.subrange(p as int, amp as int);
        assert(before(rest, '&') =~= pair);
        let eq = find(&chars, p, amp, '=');
        if eq < amp {
            let found = unescaped(&chars, p, eq);
            assert(before(pair, '=') =~= chars@.subrange(p as int, eq as int));
            if same_chars(&found, &wanted) {
                let value = string_of(&chars, eq + 1, amp);
                assert(after(pair, '=') =~= chars@.subrange(eq + 1, amp as int));
                return Some(value);
            }
        }
        if amp < end {
            assert(after(rest, '&') =~= chars@.subrange(amp + 1, end as int));
            p = amp + 1;
        } else {
            return None;
        }
    }
}

/// Reads a text as a number in base ten that fits sixteen bits.
pub fn parse_decimal(text: &str) -> (value: Option<u16>)
    ensures
        value == decimal_u16(text@),
{
    let chars = chars_of(text);
    if chars.len() == 0 {
        return None;
    }
    let mut acc: u32 = 0;
    let mut i: usize = 0;
    while i < chars.len()
        invariant
            i <= chars.len(),
            chars@ == text@,
            forall|j: int| 0 <= j < i ==> is_digit(#[trigger] chars@[j]),
            acc == decimal(chars@.take(i as int)),
            acc <= u16::MAX,
        decreases chars.len() - i,
    {
        let c = chars[i];
        if !('0' <= c && c <= '9') {
            assert(!is_digit(chars@[i as int]));
            return None;
        }
        let digit: u32 = c as u32 - '0' as u32;
        let next: u32 = acc * 10 + digit;
        proof {
            assert(chars@.take(i + 1).drop_last() =~= chars@.take(i as int));
            assert(next == decimal(chars@.take(i + 1)));
        }
        if next > 65535 {
            proof {
                if is_number(chars@) {
                    lemma_decimal_grows(chars@, i + 1);
                }
            }
            return None;
        }
        acc = next;
        i += 1;
    }
    assert(chars@.take(chars.len() as int) =~= chars@);
    Some(acc as u16)
}

/// The offset that a pagination link carries in its `page[offset]`
/// parameter. A link without that parameter, or with a value that is no
/// number of sixteen bits, cannot be decoded.
pub fn last_offset(url: &str) -> (got: Result<u16, FetchError>)
    ensures
        match got {
            Ok(offset) => offset_of(url@) == Some(offset),
            Err(e) => e == FetchError::Decode && offset_of(url@) is None,
        },
{
    match query_parameter(url, "page[offset]") {
        Some(value) => match parse_decimal(value.as_str()) {
            Some(offset) => Ok(offset),
            None => Err(FetchError::Decode),
        },
        None => Err(FetchError::Decode),
    }
}

} // verus!
