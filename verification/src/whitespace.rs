//! The characters that count as whitespace around a line of input.

use vstd::prelude::*;

verus! {

/// Whether `c` is whitespace: a space, a horizontal tab, a carriage return
/// or a line feed. Every other character is text, the further blanks of
/// Unicode among them.
pub open spec fn spec_is_whitespace(c: char) -> bool {
    c == ' ' || c == '\t' || c == '\r' || c == '\n'
}

/// Tells whether `c` is whitespace.
#[verifier::when_used_as_spec(spec_is_whitespace)]
pub fn is_whitespace(c: char) -> (b: bool)
    ensures
        b == spec_is_whitespace(c),
{
    c == ' ' || c == '\t' || c == '\r' || c == '\n'
}

/// Whether `s` holds nothing but whitespace. The empty sequence does.
pub open spec fn all_whitespace(s: Seq<char>) -> bool {
    forall|i: int| 0 <= i < s.len() ==> is_whitespace(#[trigger] s[i])
}

/// Whether `s` has text at both ends: it is empty, or neither its first nor
/// its last character is whitespace.
pub open spec fn is_bare(s: Seq<char>) -> bool {
    s.len() > 0 ==> !is_whitespace(s.first()) && !is_whitespace(s.last())
}

} // verus!
