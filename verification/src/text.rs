//! Texts as sequences of characters: the few operations on `str` that the
//! journal needs, each with what it returns.

use crate::search::first_index;
use crate::search::lemma_first_index_unique;
use vstd::prelude::*;
use vstd::std_specs::iter::IteratorSpec;
use vstd::string::StrSliceExecFns;
use vstd::string::StringExecFns;

verus! {

/// The characters of a text, in order.
pub fn chars_of(text: &str) -> (chars: Vec<char>)
    ensures
        chars@ == text@,
{
    let mut chars: Vec<char> = Vec::new();
    let mut rest = text.chars();
    loop
        invariant
            rest.decrease() is Some,
            chars@ + rest.remaining() == text@,
        decreases rest.decrease()->0,
    {
        match rest.next() {
            Some(c) => {
                chars.push(c);
            },
            None => {
                return chars;
            },
        }
    }
}

/// Whether a character ends the part of a content that serves as its title.
pub open spec fn is_divider(c: char) -> bool {
    c == '\n' || c == '?' || c == '!' || c == '.'
}

/// How many characters stand before the first divider of a text; its whole
/// length if it holds none.
pub open spec fn title_length(content: Seq<char>) -> nat {
    first_index(content, |c: char| is_divider(c))
}

/// The part of a text before its first divider; all of it if it holds none.
pub open spec fn title_of(content: Seq<char>) -> Seq<char> {
    content.subrange(0, title_length(content) as int)
}

/// Whether a text begins with the star that marks a favourite.
pub open spec fn is_starred(content: Seq<char>) -> bool {
    content.len() > 0 && content[0] == '*'
}

/// A text without the star that it may begin with.
pub open spec fn without_star(content: Seq<char>) -> Seq<char> {
    if is_starred(content) {
        content.drop_first()
    } else {
        content
    }
}

/// Whether a character is a divider.
pub fn divides(c: char) -> (divider: bool)
    ensures
        divider == is_divider(c),
{
    c == '\n' || c == '?' || c == '!' || c == '.'
}

/// The part of a text before its first divider.
pub fn title_from(content: &str) -> (title: String)
    ensures
        title@ == title_of(content@),
{
    let chars = chars_of(content);
    let mut end: usize = 0;
    while end < chars.len() && !divides(chars[end])
        invariant
            end <= chars.len(),
            forall|i: int| 0 <= i < end ==> !is_divider(chars@[i]),
        decreases chars.len() - end,
    {
        end += 1;
    }
    proof {
        lemma_first_index_unique(content@, |c: char| is_divider(c), end as int);
    }
    String::from_str(content.substring_char(0, end))
}

/// Splits a text into whether it begins with a star, and the text without
/// that star.
pub fn strip_star(content: String) -> (parts: (bool, String))
    ensures
        parts.0 == is_starred(content@),
        parts.1@ == without_star(content@),
{
    let chars = chars_of(content.as_str());
    if chars.len() > 0 && chars[0] == '*' {
        let rest = String::from_str(content.as_str().substring_char(1, chars.len()));
        (true, rest)
    } else {
        (false, content)
    }
}

/// Whether a character is white space: one of the characters that Unicode
/// gives the property `White_Space`.
pub open spec fn is_whitespace(c: char) -> bool {
    ||| '\u{9}' <= c <= '\u{d}'
    ||| c == ' '
    ||| c == '\u{85}'
    ||| c == '\u{a0}'
    ||| c == '\u{1680}'
    ||| '\u{2000}' <= c <= '\u{200a}'
    ||| c == '\u{2028}'
    ||| c == '\u{2029}'
    ||| c == '\u{202f}'
    ||| c == '\u{205f}'
    ||| c == '\u{3000}'
}

/// The condition that a character is no white space.
pub open spec fn is_visible() -> spec_fn(char) -> bool {
    |c: char| !is_whitespace(c)
}

/// A text without the white space around it: the part from its first
/// character that is no white space to its last one; nothing of a text that
/// has none.
pub open spec fn trimmed(text: Seq<char>) -> Seq<char> {
    let rest = text.skip(first_index(text, is_visible()) as int);
    rest.take(rest.len() - first_index(rest.reverse(), is_visible()))
}

/// Whether a character is white space.
pub fn is_space(c: char) -> (space: bool)
    ensures
        space == is_whitespace(c),
{
    ('\u{9}' <= c && c <= '\u{d}') || c == ' ' || c == '\u{85}' || c == '\u{a0}' || c
        == '\u{1680}' || ('\u{2000}' <= c && c <= '\u{200a}') || c == '\u{2028}' || c
        == '\u{2029}' || c == '\u{202f}' || c == '\u{205f}' || c == '\u{3000}'
}

/// The text without the white space at its beginning and at its end.
pub fn trim(text: &str) -> (kept: &str)
    ensures
        kept@ == trimmed(text@),
{
    let chars = chars_of(text);
    let mut start: usize = 0;
    while start < chars.len() && is_space(chars[start])
        invariant
            start <= chars.len(),
            forall|i: int| 0 <= i < start ==> is_whitespace(chars@[i]),
        decreases chars.len() - start,
    {
        start += 1;
    }
    let mut end: usize = chars.len();
    while end > start && is_space(chars[end - 1])
        invariant
            start <= end <= chars.len(),
            forall|i: int| end <= i < chars.len() ==> is_whitespace(chars@[i]),
        decreases end,
    {
        end -= 1;
    }
    proof {
        let rest = text@.skip(start as int);
        lemma_first_index_unique(text@, is_visible(), start as int);
        lemma_first_index_unique(rest.reverse(), is_visible(), chars.len() - end);
        assert(rest.take(end - start) =~= text@.subrange(start as int, end as int));
    }
    text.substring_char(start, end)
}

/// A text that begins and ends with a character that is no white space is
/// kept as it is, and nothing is kept of a text of white space.
pub proof fn lemma_trimmed(text: Seq<char>)
    ensures
        text.len() > 0 && !is_whitespace(text.first()) && !is_whitespace(text.last())
            ==> trimmed(text) == text,
        (forall|i: int| 0 <= i < text.len() ==> is_whitespace(text[i])) ==> trimmed(text).len()
            == 0,
{
    if text.len() > 0 && !is_whitespace(text.first()) && !is_whitespace(text.last()) {
        lemma_first_index_unique(text, is_visible(), 0);
        assert(text.skip(0) =~= text);
        lemma_first_index_unique(text.reverse(), is_visible(), 0);
        assert(text.take(text.len() as int) =~= text);
    }
    if forall|i: int| 0 <= i < text.len() ==> is_whitespace(text[i]) {
        lemma_first_index_unique(text, is_visible(), text.len() as int);
    }
}

/// Whether two texts hold the same characters.
pub fn same_text(left: &str, right: &str) -> (same: bool)
    ensures
        same == (left@ == right@),
{
    String::from_str(left) == String::from_str(right)
}

/// The given texts one after the other, with the separator between each
/// two of them.
pub open spec fn joined(parts: Seq<Seq<char>>, separator: Seq<char>) -> Seq<char>
    decreases parts.len(),
{
    if parts.len() == 0 {
        Seq::empty()
    } else if parts.len() == 1 {
        parts[0]
    } else {
        joined(parts.drop_last(), separator) + separator + parts.last()
    }
}

/// The given texts one after the other, with the separator between each
/// two of them.
pub fn join(parts: &Vec<String>, separator: &str) -> (whole: String)
    ensures
        whole@ == joined(parts.deep_view(), separator@),
{
    let mut whole = String::new();
    let mut at: usize = 0;
    while at < parts.len()
        invariant
            at <= parts.len(),
            whole@ == joined(parts.deep_view().take(at as int), separator@),
        decreases parts.len() - at,
    {
        if at > 0 {
            whole.append(separator);
        }
        whole.append(parts[at].as_str());
        proof {
            let seen = parts.deep_view().take(at + 1);
            assert(seen.drop_last() =~= parts.deep_view().take(at as int));
            assert(seen.last() == parts[at as int]@);
            if at == 0 {
                assert(whole@ =~= parts[at as int]@);
            }
        }
        at += 1;
    }
    assert(parts.deep_view().take(at as int) =~= parts.deep_view());
    whole
}

/// A text without the line break that it may end with.
pub open spec fn without_line_break(text: Seq<char>) -> Seq<char> {
    if text.len() > 0 && text.last() == '\n' {
        text.drop_last()
    } else {
        text
    }
}

/// A text without the line break that it may end with.
pub fn strip_line_break(text: &str) -> (kept: &str)
    ensures
        kept@ == without_line_break(text@),
{
    let chars = chars_of(text);
    let length = chars.len();
    if length > 0 && chars[length - 1] == '\n' {
        text.substring_char(0, length - 1)
    } else {
        text
    }
}

} // verus!
