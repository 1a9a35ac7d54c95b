//! What holds of trimming, whatever the line.

use vstd::prelude::*;
use crate::trim::{leading, trailing, trimmed, trimmed_start};
use crate::whitespace::{all_whitespace, is_bare, is_whitespace};

verus! {

/// `leading(s)` is the index of the first character of text in `s`, or the
/// length of `s` where it has none.
pub proof fn lemma_leading(s: Seq<char>)
    ensures
        leading(s) <= s.len(),
        forall|i: int| 0 <= i < leading(s) ==> is_whitespace(#[trigger] s[i]),
        leading(s) < s.len() ==> !is_whitespace(s[leading(s) as int]),
    decreases s.len(),
{
    if s.len() > 0 && is_whitespace(s.first()) {
        let rest = s.drop_first();
        lemma_leading(rest);
        assert forall|i: int| 0 <= i < leading(s) implies is_whitespace(#[trigger] s[i]) by {
            if i > 0 {
                assert(s[i] == rest[i - 1]);
            }
        }
        if leading(s) < s.len() {
            assert(s[leading(s) as int] == rest[leading(rest) as int]);
        }
    }
}

/// `trailing(s)` counts back from the end of `s` to its last character of
/// text, or to its start where it has none.
pub proof fn lemma_trailing(s: Seq<char>)
    ensures
        trailing(s) <= s.len(),
        forall|i: int| s.len() - trailing(s) <= i < s.len() ==> is_whitespace(#[trigger] s[i]),
        trailing(s) < s.len() ==> !is_whitespace(s[s.len() - trailing(s) - 1]),
    decreases s.len(),
{
    if s.len() > 0 && is_whitespace(s.last()) {
        let rest = s.drop_last();
        lemma_trailing(rest);
        assert forall|i: int| s.len() - trailing(s) <= i < s.len() implies is_whitespace(
            #[trigger] s[i],
        ) by {
            if i < s.len() - 1 {
                assert(s[i] == rest[i]);
            }
        }
        if trailing(s) < s.len() {
            assert(s[s.len() - trailing(s) - 1] == rest[rest.len() - trailing(rest) - 1]);
        }
    }
}

/// An index with whitespace alone before it, and text at it or nothing
/// after it, is `leading(s)`.
pub proof fn lemma_leading_is(s: Seq<char>, k: int)
    requires
        0 <= k <= s.len(),
        forall|i: int| 0 <= i < k ==> is_whitespace(#[trigger] s[i]),
        k < s.len() ==> !is_whitespace(s[k]),
    ensures
        leading(s) == k,
{
    lemma_leading(s);
    let l = leading(s) as int;
    if l < k {
        assert(is_whitespace(s[l]));
    } else if k < l {
        assert(is_whitespace(s[k]));
    }
}

/// An index with whitespace alone from it on, and text just before it or
/// nothing before it, is `s.len() - trailing(s)`.
pub proof fn lemma_trailing_is(s: Seq<char>, k: int)
    requires
        0 <= k <= s.len(),
        forall|i: int| k <= i < s.len() ==> is_whitespace(#[trigger] s[i]),
        k > 0 ==> !is_whitespace(s[k - 1]),
    ensures
        trailing(s) == s.len() - k,
{
    lemma_trailing(s);
    let e = s.len() - trailing(s);
    if e < k {
        assert(is_whitespace(s[k - 1]));
    } else if k < e {
        assert(is_whitespace(s[e - 1]));
    }
}

/// Trimming cuts a line in three: whitespace, the result, whitespace. The
/// result has text at both ends, and the three parts in their order make up
/// the line again.
pub proof fn lemma_trimmed_parts(s: Seq<char>)
    ensures
        leading(s) + trimmed(s).len() <= s.len(),
        all_whitespace(s.take(leading(s) as int)),
        is_bare(trimmed(s)),
        all_whitespace(s.skip((leading(s) + trimmed(s).len()) as int)),
        s == s.take(leading(s) as int) + trimmed(s) + s.skip((leading(s) + trimmed(s).len()) as int),
{
    let rest = trimmed_start(s);
    let t = trimmed(s);
    let after = s.skip((leading(s) + t.len()) as int);
    lemma_leading(s);
    lemma_trailing(rest);
    if t.len() > 0 {
        assert(t.first() == s[leading(s) as int]);
        assert(t.last() == rest[rest.len() - trailing(rest) - 1]);
    }
    assert forall|i: int| 0 <= i < after.len() implies is_whitespace(#[trigger] after[i]) by {
        assert(after[i] == rest[t.len() + i]);
    }
    assert(s =~= s.take(leading(s) as int) + t + after);
}

/// Trimming finds the only such cut: where a line is whitespace, then a
/// part with text at both ends, then whitespace, that part is the result.
pub proof fn lemma_trimmed_unique(before: Seq<char>, text: Seq<char>, after: Seq<char>)
    requires
        all_whitespace(before),
        is_bare(text),
        all_whitespace(after),
    ensures
        trimmed(before + text + after) == text,
{
    let s = before + text + after;
    if text.len() == 0 {
        assert forall|i: int| 0 <= i < s.len() implies is_whitespace(#[trigger] s[i]) by {
            if i < before.len() {
                assert(s[i] == before[i]);
            } else {
                assert(s[i] == after[i - before.len()]);
            }
        }
        lemma_leading_is(s, s.len() as int);
        assert(trailing(trimmed_start(s)) == 0);
        assert(trimmed(s) =~= text);
    } else {
        assert forall|i: int| 0 <= i < before.len() implies is_whitespace(#[trigger] s[i]) by {
            assert(s[i] == before[i]);
        }
        assert(s[before.len() as int] == text.first());
        lemma_leading_is(s, before.len() as int);
        let rest = trimmed_start(s);
        assert(rest =~= text + after);
        assert forall|i: int| text.len() <= i < rest.len() implies is_whitespace(
            #[trigger] rest[i],
        ) by {
            assert(rest[i] == after[i - text.len()]);
        }
        assert(rest[text.len() - 1] == text.last());
        lemma_trailing_is(rest, text.len() as int);
        assert(trimmed(s) =~= text);
    }
}

/// Whitespace put before and after a line does not change what trimming
/// gives.
pub proof fn lemma_trimmed_padding(before: Seq<char>, s: Seq<char>, after: Seq<char>)
    requires
        all_whitespace(before),
        all_whitespace(after),
    ensures
        trimmed(before + s + after) == trimmed(s),
{
    lemma_trimmed_parts(s);
    let head = before + s.take(leading(s) as int);
    let tail = s.skip((leading(s) + trimmed(s).len()) as int) + after;
    assert forall|i: int| 0 <= i < head.len() implies is_whitespace(#[trigger] head[i]) by {
        if i < before.len() {
            assert(head[i] == before[i]);
        } else {
            assert(head[i] == s.take(leading(s) as int)[i - before.len()]);
        }
    }
    assert forall|i: int| 0 <= i < tail.len() implies is_whitespace(#[trigger] tail[i]) by {
        let cut = s.skip((leading(s) + trimmed(s).len()) as int);
        if i < cut.len() {
            assert(tail[i] == cut[i]);
        } else {
            assert(tail[i] == after[i - cut.len()]);
        }
    }
    assert(before + s + after =~= head + trimmed(s) + tail);
    lemma_trimmed_unique(head, trimmed(s), tail);
}

/// Trimming is idempotent: a trimmed line trims to itself.
pub proof fn lemma_trimmed_idempotent(s: Seq<char>)
    ensures
        trimmed(trimmed(s)) == trimmed(s),
{
    lemma_trimmed_parts(s);
    lemma_trimmed_fixed(trimmed(s));
}

/// The lines that trimming leaves as they are, are those with text at both
/// ends, and the empty line.
pub proof fn lemma_trimmed_fixed(s: Seq<char>)
    ensures
        trimmed(s) == s <==> is_bare(s),
{
    if is_bare(s) {
        assert(Seq::<char>::empty() + s + Seq::<char>::empty() =~= s);
        lemma_trimmed_unique(Seq::empty(), s, Seq::empty());
    } else {
        lemma_trimmed_parts(s);
    }
}

/// The lines that trim to nothing are those of whitespace alone; the empty
/// line is one of them.
pub proof fn lemma_trimmed_whitespace(s: Seq<char>)
    ensures
        trimmed(s).len() == 0 <==> all_whitespace(s),
{
    if all_whitespace(s) {
        assert(s + Seq::<char>::empty() + Seq::<char>::empty() =~= s);
        lemma_trimmed_unique(s, Seq::empty(), Seq::empty());
    } else {
        lemma_trimmed_parts(s);
        if trimmed(s).len() == 0 {
            let i = choose|i: int| 0 <= i < s.len() && !is_whitespace(#[trigger] s[i]);
            if i < leading(s) {
                assert(s.take(leading(s) as int)[i] == s[i]);
            } else {
                assert(s.skip(leading(s) as int)[i - leading(s)] == s[i]);
            }
        }
    }
}

/// The empty line trims to the empty line.
pub proof fn lemma_trimmed_empty()
    ensures
        trimmed(Seq::<char>::empty()) == Seq::<char>::empty(),
{
    lemma_trimmed_whitespace(Seq::empty());
}

} // verus!
