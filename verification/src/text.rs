//! Text as sequences of characters: the few operations on strings that the
//! rest of the crate is written in.

use vstd::prelude::*;
use vstd::string::*;

verus! {

/// The lower-case form of a text, as the standard library computes it from
/// the Unicode tables.
pub uninterp spec fn lowercase_of(text: Seq<char>) -> Seq<char>;

/// Whether a character is a letter or a digit, by the Unicode tables.
pub uninterp spec fn is_alphanumeric_char(c: char) -> bool;

/// Whether a character is white space, by the Unicode tables.
pub uninterp spec fn is_whitespace_char(c: char) -> bool;

/// The decimal digits of a number.
pub uninterp spec fn decimal_of(n: u64) -> Seq<char>;

/// `str::to_lowercase`: the lower-case form of the text.
#[verifier::external_body]
pub(crate) fn to_lowercase(text: &str) -> (lower: String)
    ensures
        lower@ == lowercase_of(text@),
{
    text.to_lowercase()
}

/// `char::is_alphanumeric`.
#[verifier::external_body]
pub(crate) fn is_alphanumeric(c: char) -> (yes: bool)
    ensures
        yes == is_alphanumeric_char(c),
{
    c.is_alphanumeric()
}

/// `char::is_whitespace`.
#[verifier::external_body]
pub(crate) fn is_whitespace(c: char) -> (yes: bool)
    ensures
        yes == is_whitespace_char(c),
{
    c.is_whitespace()
}

/// `u64::to_string`: the number in decimal digits.
#[verifier::external_body]
pub(crate) fn decimal(n: u64) -> (digits: String)
    ensures
        digits@ == decimal_of(n),
{
    n.to_string()
}

/// `str == str`: two texts are equal when they hold the same characters in
/// the same order.
pub assume_specification[ <str as PartialEq>::eq ](a: &str, b: &str) -> (equal: bool)
    ensures
        equal == (a@ == b@),
;

/// Whether two texts are the same.
pub fn str_eq(a: &str, b: &str) -> (equal: bool)
    ensures
        equal == (a@ == b@),
{
    a.eq(b)
}

/// `text` begins with `prefix`.
pub open spec fn has_prefix(text: Seq<char>, prefix: Seq<char>) -> bool {
    prefix.len() <= text.len() && text.subrange(0, prefix.len() as int) == prefix
}

/// `needle` stands in `text` at place `at`.
pub open spec fn occurs_at(text: Seq<char>, needle: Seq<char>, at: int) -> bool {
    0 <= at && at + needle.len() <= text.len() && text.subrange(at, at + needle.len()) == needle
}

/// `needle` stands somewhere in `text`.
pub open spec fn has_infix(text: Seq<char>, needle: Seq<char>) -> bool {
    exists|at: int| occurs_at(text, needle, at)
}

/// The place of the last `c` in `text`, or -1 if there is none.
pub open spec fn last_index_of(text: Seq<char>, c: char) -> int
    decreases text.len(),
{
    if text.len() == 0 {
        -1
    } else if text.last() == c {
        text.len() - 1
    } else {
        last_index_of(text.drop_last(), c)
    }
}

/// What follows the last `c` in `text`; all of `text` if it holds no `c`.
pub open spec fn after_last(text: Seq<char>, c: char) -> Seq<char> {
    text.subrange(last_index_of(text, c) + 1, text.len() as int)
}

/// The number of white-space characters at the start of `text`.
pub open spec fn leading_whitespace(text: Seq<char>) -> nat
    decreases text.len(),
{
    if text.len() > 0 && is_whitespace_char(text[0]) {
        1 + leading_whitespace(text.drop_first())
    } else {
        0
    }
}

/// The number of white-space characters at the end of `text`.
pub open spec fn trailing_whitespace(text: Seq<char>) -> nat
    decreases text.len(),
{
    if text.len() > 0 && is_whitespace_char(text.last()) {
        1 + trailing_whitespace(text.drop_last())
    } else {
        0
    }
}

/// `text` without the white space at its start and at its end.
pub open spec fn trimmed(text: Seq<char>) -> Seq<char> {
    let start = leading_whitespace(text);
    if start == text.len() {
        Seq::empty()
    } else {
        text.subrange(start as int, text.len() - trailing_whitespace(text))
    }
}

pub proof fn lemma_last_index_of(text: Seq<char>, c: char)
    ensures
        -1 <= last_index_of(text, c) < text.len(),
        last_index_of(text, c) >= 0 ==> text[last_index_of(text, c)] == c,
        forall|i: int| last_index_of(text, c) < i < text.len() ==> text[i] != c,
    decreases text.len(),
{
    if text.len() > 0 && text.last() != c {
        lemma_last_index_of(text.drop_last(), c);
        assert forall|i: int| last_index_of(text, c) < i < text.len() implies text[i] != c by {
            if i < text.len() - 1 {
                assert(text.drop_last()[i] == text[i]);
            }
        }
    }
}

/// An index past which `text` holds no `c`, and which holds `c` itself or
/// is -1, is the place of the last `c`.
pub proof fn lemma_last_index_is(text: Seq<char>, c: char, at: int)
    requires
        -1 <= at < text.len(),
        at >= 0 ==> text[at] == c,
        forall|i: int| at < i < text.len() ==> text[i] != c,
    ensures
        last_index_of(text, c) == at,
    decreases text.len(),
{
    if text.len() > 0 {
        if text.last() == c {
        } else {
            assert forall|i: int| at < i < text.drop_last().len() implies text.drop_last()[i]
                != c by {
                assert(text.drop_last()[i] == text[i]);
            }
            if at >= 0 {
                assert(text.drop_last()[at] == text[at]);
            }
            lemma_last_index_is(text.drop_last(), c, at);
        }
    }
}

pub proof fn lemma_leading_whitespace(text: Seq<char>)
    ensures
        leading_whitespace(text) <= text.len(),
        forall|i: int| 0 <= i < leading_whitespace(text) ==> is_whitespace_char(text[i]),
        leading_whitespace(text) < text.len() ==> !is_whitespace_char(
            text[leading_whitespace(text) as int],
        ),
    decreases text.len(),
{
    if text.len() > 0 && is_whitespace_char(text[0]) {
        let rest = text.drop_first();
        lemma_leading_whitespace(rest);
        assert forall|i: int| 0 <= i < leading_whitespace(text) implies is_whitespace_char(
            text[i],
        ) by {
            if i > 0 {
                assert(rest[i - 1] == text[i]);
            }
        }
        if leading_whitespace(text) < text.len() {
            assert(rest[leading_whitespace(rest) as int] == text[leading_whitespace(text) as int]);
        }
    }
}

/// A count of white-space characters at the start, followed by one that is
/// not white space or by the end, is the leading white space.
pub proof fn lemma_leading_whitespace_is(text: Seq<char>, n: nat)
    requires
        n <= text.len(),
        forall|i: int| 0 <= i < n ==> is_whitespace_char(text[i]),
        n < text.len() ==> !is_whitespace_char(text[n as int]),
    ensures
        leading_whitespace(text) == n,
    decreases text.len(),
{
    if n > 0 {
        let rest = text.drop_first();
        assert(is_whitespace_char(text[0]));
        assert forall|i: int| 0 <= i < n - 1 implies is_whitespace_char(rest[i]) by {
            assert(rest[i] == text[i + 1]);
        }
        if n < text.len() {
            assert(rest[n - 1] == text[n as int]);
        }
        lemma_leading_whitespace_is(rest, (n - 1) as nat);
    }
}

/// A count of white-space characters at the end, preceded by one that is
/// not white space or by the start, is the trailing white space.
pub proof fn lemma_trailing_whitespace_is(text: Seq<char>, n: nat)
    requires
        n <= text.len(),
        forall|i: int| text.len() - n <= i < text.len() ==> is_whitespace_char(text[i]),
        n < text.len() ==> !is_whitespace_char(text[text.len() - n - 1]),
    ensures
        trailing_whitespace(text) == n,
    decreases text.len(),
{
    if n > 0 {
        let rest = text.drop_last();
        assert(is_whitespace_char(text[text.len() - 1]));
        assert forall|i: int| rest.len() - (n - 1) <= i < rest.len() implies is_whitespace_char(
            rest[i],
        ) by {
            assert(rest[i] == text[i]);
        }
        if n < text.len() {
            assert(rest[rest.len() - (n - 1) - 1] == text[text.len() - n - 1]);
        }
        lemma_trailing_whitespace_is(rest, (n - 1) as nat);
    }
}

/// The characters of a text.
pub fn chars_of(text: &str) -> (chars: Vec<char>)
    ensures
        chars@ == text@,
{
    let len: usize = text.unicode_len();
    let mut chars: Vec<char> = Vec::with_capacity(len);
    let mut i: usize = 0;
    while i < len
        invariant
            len == text@.len(),
            i <= len,
            chars@ == text@.subrange(0, i as int),
        decreases len - i,
    {
        chars.push(text.get_char(i));
        assert(text@.subrange(0, i + 1) == text@.subrange(0, i as int).push(text@[i as int]));
        i += 1;
    }
    assert(text@.subrange(0, len as int) == text@);
    chars
}

/// The text made of `chars[from..to]`.
pub fn text_of(chars: &Vec<char>, from: usize, to: usize) -> (text: String)
    requires
        from <= to <= chars@.len(),
    ensures
        text@ == chars@.subrange(from as int, to as int),
{
    let mut text = String::new();
    let mut i: usize = from;
    while i < to
        invariant
            from <= i <= to <= chars@.len(),
            text@ == chars@.subrange(from as int, i as int),
        decreases to - i,
    {
        text.push(chars[i]);
        assert(chars@.subrange(from as int, i + 1) == chars@.subrange(from as int, i as int).push(
            chars@[i as int],
        ));
        i += 1;
    }
    text
}

/// Whether `text` begins with `prefix`.
pub fn starts_with(text: &Vec<char>, prefix: &Vec<char>) -> (yes: bool)
    ensures
        yes == has_prefix(text@, prefix@),
{
    if prefix.len() > text.len() {
        return false;
    }
    matches_at(text, prefix, 0)
}

/// Whether `needle` stands in `text` at place `at`.
pub fn matches_at(text: &Vec<char>, needle: &Vec<char>, at: usize) -> (yes: bool)
    requires
        at + needle@.len() <= text@.len(),
    ensures
        yes == occurs_at(text@, needle@, at as int),
{
    let text_len: usize = text.len();
    let mut i: usize = 0;
    while i < needle.len()
        invariant
            at + needle@.len() <= text@.len() == text_len,
            i <= needle@.len(),
            forall|k: int| 0 <= k < i ==> text@[at + k] == needle@[k],
        decreases needle@.len() - i,
    {
        if text[at + i] != needle[i] {
            assert(text@.subrange(at as int, at + needle@.len())[i as int] != needle@[i as int]);
            return false;
        }
        i += 1;
    }
    assert(text@.subrange(at as int, at + needle@.len()) =~= needle@);
    true
}

/// Whether `needle` stands somewhere in `text`.
pub fn contains(text: &Vec<char>, needle: &Vec<char>) -> (yes: bool)
    ensures
        yes == has_infix(text@, needle@),
{
    if needle.len() > text.len() {
        assert forall|at: int| !occurs_at(text@, needle@, at) by {}
        return false;
    }
    let last: usize = text.len() - needle.len();
    let mut at: usize = 0;
    while at < last
        invariant
            last == text@.len() - needle@.len(),
            at <= last,
            forall|k: int| 0 <= k < at ==> !occurs_at(text@, needle@, k),
        decreases last - at,
    {
        if matches_at(text, needle, at) {
            return true;
        }
        at += 1;
    }
    if matches_at(text, needle, last) {
        return true;
    }
    assert forall|k: int| !occurs_at(text@, needle@, k) by {}
    false
}

/// Whether `text` holds the character `c`.
pub fn contains_char(text: &Vec<char>, c: char) -> (yes: bool)
    ensures
        yes == text@.contains(c),
{
    let mut i: usize = 0;
    while i < text.len()
        invariant
            i <= text@.len(),
            forall|k: int| 0 <= k < i ==> text@[k] != c,
        decreases text@.len() - i,
    {
        if text[i] == c {
            return true;
        }
        i += 1;
    }
    false
}

/// The place of the last `c` in `text`, if there is one.
pub fn rfind(text: &Vec<char>, c: char) -> (at: Option<usize>)
    ensures
        match at {
            Some(i) => i == last_index_of(text@, c),
            None => last_index_of(text@, c) == -1,
        },
{
    let mut i: usize = text.len();
    while i > 0
        invariant
            i <= text@.len(),
            forall|k: int| i <= k < text@.len() ==> text@[k] != c,
        decreases i,
    {
        if text[i - 1] == c {
            proof {
                lemma_last_index_is(text@, c, i - 1);
            }
            return Some(i - 1);
        }
        i -= 1;
    }
    proof {
        lemma_last_index_is(text@, c, -1);
    }
    None
}

/// The bounds of `text` without the white space at its start and end.
pub fn trim_bounds(text: &Vec<char>) -> (bounds: (usize, usize))
    ensures
        bounds.0 <= bounds.1 <= text@.len(),
        text@.subrange(bounds.0 as int, bounds.1 as int) == trimmed(text@),
{
    let len: usize = text.len();
    let mut start: usize = 0;
    while start < len && is_whitespace(text[start])
        invariant
            len == text@.len(),
            start <= len,
            forall|k: int| 0 <= k < start ==> is_whitespace_char(text@[k]),
        decreases len - start,
    {
        start += 1;
    }
    proof {
        lemma_leading_whitespace_is(text@, start as nat);
    }
    if start == len {
        assert(text@.subrange(start as int, start as int) == Seq::<char>::empty());
        return (start, start);
    }
    let mut end: usize = len;
    while end > start && is_whitespace(text[end - 1])
        invariant
            len == text@.len(),
            start < len,
            start <= end <= len,
            !is_whitespace_char(text@[start as int]),
            forall|k: int| end <= k < len ==> is_whitespace_char(text@[k]),
        decreases end,
    {
        end -= 1;
    }
    proof {
        lemma_trailing_whitespace_is(text@, (len - end) as nat);
    }
    (start, end)
}

} // verus!
