//! Building and normalising text.

use vstd::prelude::*;

verus! {

/// `text` without its leading and trailing white space, as `str::trim` removes
/// it.
pub uninterp spec fn trimmed(text: Seq<char>) -> Seq<char>;

/// `text` in upper case, as `str::to_uppercase` writes it.
pub uninterp spec fn uppercased(text: Seq<char>) -> Seq<char>;

/// `str::trim` returns the slice without leading and trailing white space,
/// where white space is what Unicode's `White_Space` property marks.
///
/// Not proved: that the result depends on the characters alone.
pub assume_specification[ str::trim ](text: &str) -> (slice: &str)
    ensures
        slice@ == trimmed(text@),
;

/// `str::to_uppercase` returns the upper-case equivalent of the text as a new
/// string, by Unicode's upper-case mapping.
///
/// Not proved: that the result depends on the characters alone.
pub assume_specification[ str::to_uppercase ](text: &str) -> (upper: String)
    ensures
        upper@ == uppercased(text@),
;

/// The value of an optional string.
pub open spec fn text_view(text: Option<String>) -> Option<Seq<char>> {
    match text {
        Some(s) => Some(s@),
        None => None,
    }
}

/// Whether two texts hold the same characters.
pub fn same_text(left: &str, right: &str) -> (same: bool)
    ensures
        same == (left@ == right@),
{
    left.to_owned() == right.to_owned()
}

/// `before` and `after` in one string.
pub fn join2(before: &str, after: &str) -> (joined: String)
    ensures
        joined@ == before@ + after@,
{
    let mut joined = before.to_owned();
    joined.append(after);
    joined
}

/// `before`, `middle` and `after` in one string.
pub fn join3(before: &str, middle: &str, after: &str) -> (joined: String)
    ensures
        joined@ == before@ + middle@ + after@,
{
    let mut joined = before.to_owned();
    joined.append(middle);
    joined.append(after);
    joined
}

} // verus!
