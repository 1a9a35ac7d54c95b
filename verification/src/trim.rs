//! Trimming: a line without the whitespace before its first and after its
//! last character of text.

use vstd::prelude::*;
use crate::lemmas::{lemma_leading_is, lemma_trailing_is};
use crate::whitespace::{all_whitespace, is_whitespace};

verus! {

/// How many whitespace characters stand at the front of `s`.
pub open spec fn leading(s: Seq<char>) -> nat
    decreases s.len(),
{
    if s.len() > 0 && is_whitespace(s.first()) {
        1 + leading(s.drop_first())
    } else {
        0
    }
}

/// How many whitespace characters stand at the back of `s`.
pub open spec fn trailing(s: Seq<char>) -> nat
    decreases s.len(),
{
    if s.len() > 0 && is_whitespace(s.last()) {
        1 + trailing(s.drop_last())
    } else {
        0
    }
}

/// `s` without its leading whitespace.
pub open spec fn trimmed_start(s: Seq<char>) -> Seq<char> {
    s.skip(leading(s) as int)
}

/// `s` without its trailing whitespace.
pub open spec fn trimmed_end(s: Seq<char>) -> Seq<char> {
    s.take(s.len() - trailing(s))
}

/// `s` without its leading and trailing whitespace. Whitespace between two
/// characters of text stays.
pub open spec fn trimmed(s: Seq<char>) -> Seq<char> {
    trimmed_end(trimmed_start(s))
}

/// The line without its leading and trailing whitespace, as a string of its
/// own. A line of whitespace alone, the empty line among them, gives the
/// empty string.
pub fn trim(line: &str) -> (out: String)
    ensures
        out@ == trimmed(line@),
        out@.len() == 0 <==> all_whitespace(line@),
{
    let len = line.unicode_len();
    let mut start: usize = len;
    let mut end: usize = 0;
    let mut at: usize = 0;
    for c in chars: line.chars()
        invariant
            len == line@.len(),
            chars.seq() == line@,
            at == chars.index(),
            end <= at <= len,
            forall|i: int| 0 <= i < at && i < start ==> is_whitespace(#[trigger] line@[i]),
            forall|i: int| end <= i < at ==> is_whitespace(#[trigger] line@[i]),
            start < len ==> start < end && !is_whitespace(line@[start as int]),
            start == len || start < at,
            end > 0 ==> start < len && !is_whitespace(line@[end - 1]),
    {
        if !is_whitespace(c) {
            if start == len {
                start = at;
            }
            end = at + 1;
        }
        at += 1;
    }
    if start == len {
        proof {
            lemma_leading_is(line@, len as int);
        }
        String::new()
    } else {
        proof {
            lemma_leading_is(line@, start as int);
            let rest = trimmed_start(line@);
            assert forall|i: int| end - start <= i < rest.len() implies is_whitespace(
                #[trigger] rest[i],
            ) by {
                assert(rest[i] == line@[i + start]);
            }
            assert(rest[end - start - 1] == line@[end - 1]);
            lemma_trailing_is(rest, end - start);
        }
        line.substring_char(start, end).to_owned()
    }
}

} // verus!
