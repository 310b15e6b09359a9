//! Cutting lines of text the way the terminal client reads them.
//!
//! Positions count characters, not bytes.

use vstd::prelude::*;
use vstd::string::*;

verus! {

/// Whether `char::is_whitespace` holds of a character: whether it has
/// Unicode's `White_Space` property.
pub uninterp spec fn is_whitespace(c: char) -> bool;

/// `char::is_whitespace`: the answer depends on the character alone.
pub assume_specification[ char::is_whitespace ](c: char) -> (white: bool)
    ensures
        white == is_whitespace(c),
;

/// `str`'s `==`: true exactly when the two slices hold the same characters.
pub assume_specification[ <str as PartialEq>::eq ](left: &str, right: &str) -> (same: bool)
    ensures
        same == (left@ == right@),
;

/// Holds of the character `c` alone.
pub open spec fn equal_to(c: char) -> spec_fn(char) -> bool {
    |other: char| other == c
}

/// Holds of every character but `c`.
pub open spec fn other_than(c: char) -> spec_fn(char) -> bool {
    |other: char| other != c
}

/// Holds of every character that is not whitespace.
pub open spec fn not_whitespace() -> spec_fn(char) -> bool {
    |c: char| !is_whitespace(c)
}

/// The position of the first character of `text` that `wanted` holds of, or
/// the length of `text` if it holds of none.
pub open spec fn first_where(text: Seq<char>, wanted: spec_fn(char) -> bool) -> int
    decreases text.len(),
{
    if text.len() == 0 || wanted(text[0]) {
        0
    } else {
        1 + first_where(text.drop_first(), wanted)
    }
}

/// The number of characters of `text` that stand behind the last one that
/// `wanted` holds of, or the length of `text` if it holds of none.
pub open spec fn last_where(text: Seq<char>, wanted: spec_fn(char) -> bool) -> int
    decreases text.len(),
{
    if text.len() == 0 || wanted(text.last()) {
        0
    } else {
        1 + last_where(text.drop_last(), wanted)
    }
}

/// `first_where` is the one position before which `wanted` never holds and
/// at which it does, or the text ends.
pub proof fn lemma_first_where(text: Seq<char>, wanted: spec_fn(char) -> bool, at: int)
    requires
        0 <= at <= text.len(),
        forall|i: int| 0 <= i < at ==> !wanted(#[trigger] text[i]),
        at < text.len() ==> wanted(text[at]),
    ensures
        first_where(text, wanted) == at,
    decreases text.len(),
{
    if text.len() > 0 && at > 0 {
        let rest = text.drop_first();
        assert(!wanted(text[0]));
        assert forall|i: int| 0 <= i < at - 1 implies !wanted(#[trigger] rest[i]) by {
            assert(rest[i] == text[i + 1]);
        }
        lemma_first_where(rest, wanted, at - 1);
    }
}

/// `last_where` counts the characters behind the last one that `wanted`
/// holds of.
pub proof fn lemma_last_where(text: Seq<char>, wanted: spec_fn(char) -> bool, behind: int)
    requires
        0 <= behind <= text.len(),
        forall|i: int| text.len() - behind <= i < text.len() ==> !wanted(#[trigger] text[i]),
        behind < text.len() ==> wanted(text[text.len() - behind - 1]),
    ensures
        last_where(text, wanted) == behind,
    decreases text.len(),
{
    if text.len() > 0 && behind > 0 {
        let front = text.drop_last();
        assert(!wanted(text[text.len() - 1]));
        assert forall|i: int| front.len() - (behind - 1) <= i < front.len() implies !wanted(
            #[trigger] front[i],
        ) by {
            assert(front[i] == text[i]);
        }
        lemma_last_where(front, wanted, behind - 1);
    }
}

/// `text` without the run of `c` that it starts with.
pub open spec fn without_leading(text: Seq<char>, c: char) -> Seq<char> {
    text.skip(first_where(text, other_than(c)))
}

/// The part of `text` before the first `c`; all of it if there is none.
pub open spec fn before_first(text: Seq<char>, c: char) -> Seq<char> {
    text.take(first_where(text, equal_to(c)))
}

/// The part of `text` behind the first `c`; empty if there is none.
pub open spec fn after_first(text: Seq<char>, c: char) -> Seq<char> {
    let at = first_where(text, equal_to(c));
    if at < text.len() {
        text.skip(at + 1)
    } else {
        Seq::empty()
    }
}

/// `text` without the whitespace that it starts and ends with.
pub open spec fn trimmed(text: Seq<char>) -> Seq<char> {
    let black = not_whitespace();
    let start = first_where(text, black);
    if start == text.len() {
        Seq::empty()
    } else {
        text.subrange(start, text.len() - last_where(text, black))
    }
}

/// The position of the first character that is not `c`, or `length` if
/// there is none.
fn skip_run(text: &str, length: usize, c: char) -> (at: usize)
    requires
        length == text@.len(),
    ensures
        at == first_where(text@, other_than(c)),
        at <= length,
{
    let mut at: usize = 0;
    while at < length && text.get_char(at) == c
        invariant
            at <= length,
            length == text@.len(),
            forall|i: int| 0 <= i < at ==> #[trigger] text@[i] == c,
        decreases length - at,
    {
        at += 1;
    }
    proof {
        lemma_first_where(text@, other_than(c), at as int);
    }
    at
}

/// The position of the first `c`, or `length` if there is none.
fn find_char(text: &str, length: usize, c: char) -> (at: usize)
    requires
        length == text@.len(),
    ensures
        at == first_where(text@, equal_to(c)),
        at <= length,
{
    let mut at: usize = 0;
    while at < length && text.get_char(at) != c
        invariant
            at <= length,
            length == text@.len(),
            forall|i: int| 0 <= i < at ==> #[trigger] text@[i] != c,
        decreases length - at,
    {
        at += 1;
    }
    proof {
        lemma_first_where(text@, equal_to(c), at as int);
    }
    at
}

/// Cuts the leading run of `c` off `text`.
pub fn strip_leading(text: &str, c: char) -> (rest: &str)
    ensures
        rest@ == without_leading(text@, c),
{
    let length = text.unicode_len();
    let start = skip_run(text, length, c);
    let rest = text.substring_char(start, length);
    proof {
        assert(text@.subrange(start as int, length as int) =~= text@.skip(start as int));
    }
    rest
}

/// Cuts `text` at its first `c`: what stands before it, and what stands
/// behind it. Without a `c` the first part is all of `text` and the second
/// is empty.
pub fn split_at_first(text: &str, c: char) -> (parts: (&str, &str))
    ensures
        parts.0@ == before_first(text@, c),
        parts.1@ == after_first(text@, c),
{
    let length = text.unicode_len();
    let at = find_char(text, length, c);
    let head = text.substring_char(0, at);
    proof {
        assert(text@.subrange(0, at as int) =~= text@.take(at as int));
    }
    if at < length {
        let tail = text.substring_char(at + 1, length);
        proof {
            assert(text@.subrange(at + 1, length as int) =~= text@.skip(at + 1));
        }
        (head, tail)
    } else {
        let tail = text.substring_char(length, length);
        proof {
            assert(text@.subrange(length as int, length as int) =~= Seq::<char>::empty());
        }
        (head, tail)
    }
}

/// Cuts the whitespace off both ends of `text`.
pub fn trim(text: &str) -> (kept: &str)
    ensures
        kept@ == trimmed(text@),
{
    let length = text.unicode_len();
    let ghost black = not_whitespace();
    let mut start: usize = 0;
    while start < length && text.get_char(start).is_whitespace()
        invariant
            start <= length,
            length == text@.len(),
            forall|i: int| 0 <= i < start ==> is_whitespace(#[trigger] text@[i]),
        decreases length - start,
    {
        start += 1;
    }
    proof {
        lemma_first_where(text@, black, start as int);
    }
    if start == length {
        let kept = text.substring_char(length, length);
        proof {
            assert(text@.subrange(length as int, length as int) =~= Seq::<char>::empty());
        }
        return kept;
    }
    let mut end: usize = length;
    while end > start + 1 && text.get_char(end - 1).is_whitespace()
        invariant
            start < end <= length,
            length == text@.len(),
            !is_whitespace(text@[start as int]),
            forall|i: int| end <= i < length ==> is_whitespace(#[trigger] text@[i]),
        decreases end,
    {
        end -= 1;
    }
    proof {
        lemma_last_where(text@, black, length - end);
    }
    text.substring_char(start, end)
}

/// Whether `text` starts with `c`.
pub fn starts_with(text: &str, c: char) -> (starts: bool)
    ensures
        starts == (text@.len() > 0 && text@[0] == c),
{
    text.unicode_len() > 0 && text.get_char(0) == c
}

} // verus!
