//! Text primitives the matching rules are built on: case folding, trimming
//! and substring containment, stated over sequences of characters.

use vstd::prelude::*;

verus! {

/// What `str::to_lowercase` returns for a given character sequence. The
/// result depends on the characters alone.
pub uninterp spec fn lower_of(s: Seq<char>) -> Seq<char>;

/// What `str::trim` returns for a given character sequence. The result
/// depends on the characters alone.
pub uninterp spec fn trimmed_of(s: Seq<char>) -> Seq<char>;

/// `needle` occurs contiguously somewhere in `hay`.
pub open spec fn contains_seq(hay: Seq<char>, needle: Seq<char>) -> bool {
    exists|i: int|
        0 <= i && i + needle.len() <= hay.len() && #[trigger] hay.subrange(i, i + needle.len())
            == needle
}

/// The one matching rule of the library: the live text, trimmed and case
/// folded, contains the case-folded target text.
pub open spec fn matches_folded(live: Seq<char>, target: Seq<char>) -> bool {
    contains_seq(lower_of(trimmed_of(live)), lower_of(target))
}

/// Relies on `str::to_lowercase`: returns the lowercase equivalent of the
/// string, as documented by std; the result is a function of the input text.
#[verifier::external_body]
pub(crate) fn lowercased(s: &str) -> (r: String)
    ensures
        r@ == lower_of(s@),
{
    s.to_lowercase()
}

/// Relies on `str::trim`: returns the input with leading and trailing
/// whitespace removed; the result is a function of the input text.
#[verifier::external_body]
pub(crate) fn trimmed<'a>(s: &'a str) -> (r: &'a str)
    ensures
        r@ == trimmed_of(s@),
{
    s.trim()
}

/// Relies on `str::contains` with a `&str` pattern: true exactly when the
/// needle occurs as a contiguous substring of the haystack.
#[verifier::external_body]
pub(crate) fn contains_sub(hay: &str, needle: &str) -> (r: bool)
    ensures
        r == contains_seq(hay@, needle@),
{
    hay.contains(needle)
}

/// Decides the matching rule for one live text and one target text.
pub fn text_match(live: &str, target: &str) -> (r: bool)
    ensures
        r == matches_folded(live@, target@),
{
    let live_trimmed = trimmed(live);
    let live_folded = lowercased(live_trimmed);
    let target_folded = lowercased(target);
    contains_sub(live_folded.as_str(), target_folded.as_str())
}

/// Relies on `<str as PartialEq>::eq`: two string slices compare equal
/// exactly when their character sequences are equal.
#[verifier::external_body]
pub(crate) fn str_eq(a: &str, b: &str) -> (r: bool)
    ensures
        r == (a@ == b@),
{
    a == b
}

} // verus!
