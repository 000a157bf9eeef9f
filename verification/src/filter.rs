//! The optional filter: a line passes when it holds the filter's text as a
//! contiguous run of characters.

use vstd::prelude::*;

verus! {

/// `part` stands in `text` at position `at`.
pub open spec fn occurs_at(part: Seq<char>, text: Seq<char>, at: int) -> bool {
    &&& 0 <= at
    &&& at + part.len() <= text.len()
    &&& text.subrange(at, at + part.len()) == part
}

/// `part` stands somewhere in `text`, character for character.
pub open spec fn occurs_in(part: Seq<char>, text: Seq<char>) -> bool {
    exists|at: int| occurs_at(part, text, at)
}

/// Whether the filter lets `line` through: every line where there is no
/// filter, else the lines that hold the filter's text.
pub open spec fn admits(filter: Option<Seq<char>>, line: Seq<char>) -> bool {
    match filter {
        Some(part) => occurs_in(part, line),
        None => true,
    }
}

/// `str::contains` with a string as its pattern: whether the pattern is a
/// substring of the text.
#[verifier::external_body]
fn holds_substring(text: &str, part: &str) -> (found: bool)
    ensures
        found == occurs_in(part@, text@),
{
    text.contains(part)
}

/// Decides whether the filter lets `line` through.
pub fn passes(filter: &Option<String>, line: &str) -> (shown: bool)
    ensures
        shown == admits(filter.deep_view(), line@),
{
    match filter {
        Some(part) => holds_substring(line, part.as_str()),
        None => true,
    }
}

/// The empty text stands in every text.
pub proof fn lemma_empty_occurs_everywhere(text: Seq<char>)
    ensures
        occurs_in(Seq::<char>::empty(), text),
{
    assert(text.subrange(0, 0) =~= Seq::<char>::empty());
    assert(occurs_at(Seq::<char>::empty(), text, 0));
}

} // verus!
