//! The text functions of the standard library that the crate calls, each
//! with what it returns.
//!
//! The functions in this file that have a body are not verified: each
//! makes one call into the standard library, and its contract says what
//! the documentation of the standard library says of that call.

use vstd::prelude::*;

verus! {

/// Whether `pattern` occurs in `text` at the position `at`.
pub open spec fn occurs_at(text: Seq<char>, pattern: Seq<char>, at: int) -> bool {
    &&& 0 <= at
    &&& at + pattern.len() <= text.len()
    &&& text.subrange(at, at + pattern.len()) == pattern
}

/// Whether `pattern` occurs somewhere in `text`.
pub open spec fn spec_contains(text: Seq<char>, pattern: Seq<char>) -> bool {
    exists|at: int| occurs_at(text, pattern, at)
}

/// Whether `text` ends with `pattern`.
pub open spec fn spec_ends_with(text: Seq<char>, pattern: Seq<char>) -> bool {
    occurs_at(text, pattern, text.len() - pattern.len())
}

/// `text` without the run of `c` that it starts with.
pub open spec fn without_leading(text: Seq<char>, c: char) -> Seq<char>
    decreases text.len(),
{
    if text.len() > 0 && text[0] == c {
        without_leading(text.drop_first(), c)
    } else {
        text
    }
}

/// `str`'s `==`: two texts are equal where they hold the same characters in
/// the same order.
#[verifier::external_body]
pub(crate) fn str_eq(left: &str, right: &str) -> (equal: bool)
    ensures
        equal == (left@ == right@),
{
    left == right
}

/// `str::contains` with a text for its pattern: whether the pattern occurs
/// in the text. The empty pattern occurs in every text.
#[verifier::external_body]
pub(crate) fn str_contains(text: &str, pattern: &str) -> (found: bool)
    ensures
        found == spec_contains(text@, pattern@),
{
    text.contains(pattern)
}

/// `str::ends_with` with a text for its pattern: whether the text ends with
/// the pattern.
#[verifier::external_body]
pub(crate) fn str_ends_with(text: &str, suffix: &str) -> (found: bool)
    ensures
        found == spec_ends_with(text@, suffix@),
{
    text.ends_with(suffix)
}

/// `str::trim_start_matches` with a character for its pattern: the text
/// from its first character that is not the given one.
#[verifier::external_body]
pub(crate) fn str_trim_start_matches(text: &str, c: char) -> (rest: &str)
    ensures
        rest@ == without_leading(text@, c),
{
    text.trim_start_matches(c)
}

/// Whether `pattern` occurs in `text` at the position `at` and nowhere
/// before it.
pub open spec fn first_occurs_at(text: Seq<char>, pattern: Seq<char>, at: int) -> bool {
    &&& occurs_at(text, pattern, at)
    &&& forall|earlier: int| 0 <= earlier < at ==> !occurs_at(text, pattern, earlier)
}

/// `str::split_once` with a text for its delimiter: what lies before the
/// first occurrence of the delimiter and what lies after it, or `None`
/// where the delimiter does not occur.
#[verifier::external_body]
pub(crate) fn str_split_once<'a>(text: &'a str, delimiter: &str) -> (parts: Option<
    (&'a str, &'a str),
>)
    ensures
        match parts {
            Some((before, after)) => {
                &&& first_occurs_at(text@, delimiter@, before@.len() as int)
                &&& before@ == text@.subrange(0, before@.len() as int)
                &&& after@ == text@.subrange(
                    before@.len() as int + delimiter@.len(),
                    text@.len() as int,
                )
            },
            None => !spec_contains(text@, delimiter@),
        },
{
    text.split_once(delimiter)
}

/// What `str::to_lowercase` makes of a text: its lowercase equivalent, by
/// the rules of Unicode.
pub uninterp spec fn lowercase(text: Seq<char>) -> Seq<char>;

/// `str::to_lowercase`.
#[verifier::external_body]
pub(crate) fn str_to_lowercase(text: &str) -> (lowered: String)
    ensures
        lowered@ == lowercase(text@),
{
    text.to_lowercase()
}

} // verus!
