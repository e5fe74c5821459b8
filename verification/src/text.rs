//! Text operations that the script builders need, with what they compute
//! stated over sequences of characters.

use vstd::prelude::*;

verus! {

/// Whether `pattern` stands somewhere in `text`.
pub open spec fn occurs_in(text: Seq<char>, pattern: Seq<char>) -> bool {
    exists|i: int|
        0 <= i && i + pattern.len() <= text.len() && #[trigger] text.subrange(i, i + pattern.len())
            == pattern
}

/// `text` with every occurrence of the non-empty `pattern` replaced by
/// `with`, taken from the left and without overlap.
pub open spec fn replaced(text: Seq<char>, pattern: Seq<char>, with: Seq<char>) -> Seq<char>
    decreases text.len(),
{
    if pattern.len() == 0 || text.len() < pattern.len() {
        text
    } else if text.subrange(0, pattern.len() as int) == pattern {
        with + replaced(text.subrange(pattern.len() as int, text.len() as int), pattern, with)
    } else {
        seq![text[0]] + replaced(text.drop_first(), pattern, with)
    }
}

/// `text` cut at the first `separator`: what stands before it and what
/// stands after it, or `None` where it does not occur.
pub open spec fn split_first(text: Seq<char>, separator: char) -> Option<(Seq<char>, Seq<char>)>
    decreases text.len(),
{
    if text.len() == 0 {
        None
    } else if text[0] == separator {
        Some((Seq::empty(), text.drop_first()))
    } else {
        match split_first(text.drop_first(), separator) {
            Some((before, after)) => Some((seq![text[0]] + before, after)),
            None => None,
        }
    }
}

/// The two parts of a cut make up the text, and the first holds no
/// separator; where there is no cut, the text holds none.
pub proof fn lemma_split_first(text: Seq<char>, separator: char)
    ensures
        match split_first(text, separator) {
            Some((before, after)) => text == before + seq![separator] + after && !before.contains(
                separator,
            ),
            None => !text.contains(separator),
        },
    decreases text.len(),
{
    if text.len() == 0 {
    } else if text[0] == separator {
        assert(text =~= Seq::<char>::empty() + seq![separator] + text.drop_first());
    } else {
        let rest = text.drop_first();
        lemma_split_first(rest, separator);
        match split_first(rest, separator) {
            Some((before, after)) => {
                let longer = seq![text[0]] + before;
                assert(rest == before + seq![separator] + after);
                assert(text =~= seq![text[0]] + rest);
                assert(text =~= longer + seq![separator] + after);
                assert forall|k: int| 0 <= k < longer.len() implies longer[k] != separator by {
                    if k > 0 {
                        assert(before[k - 1] == longer[k]);
                        assert(before.contains(before[k - 1]));
                    }
                }
            },
            None => {
                assert forall|k: int| 0 <= k < text.len() implies text[k] != separator by {
                    if k > 0 {
                        assert(rest[k - 1] == text[k]);
                        assert(rest.contains(rest[k - 1]));
                    }
                }
            },
        }
    }
}

/// Calls `str::contains` with a string pattern: whether the pattern is a
/// substring of the text.
#[verifier::external_body]
pub(crate) fn contains_text(text: &str, pattern: &str) -> (found: bool)
    ensures
        found == occurs_in(text@, pattern@),
{
    text.contains(pattern)
}

/// Calls `str::replace`: every match of the pattern, found from the left
/// without overlap, gives way to the replacement.
#[verifier::external_body]
pub(crate) fn replace_text(text: &str, pattern: &str, with: &str) -> (out: String)
    requires
        pattern@.len() > 0,
    ensures
        out@ == replaced(text@, pattern@, with@),
{
    text.replace(pattern, with)
}

/// Calls `str::split_once` with a character: the text before the first
/// occurrence of the delimiter and the text after it.
#[verifier::external_body]
pub(crate) fn split_at_first(text: &str, separator: char) -> (parts: Option<(&str, &str)>)
    ensures
        match parts {
            Some((before, after)) => split_first(text@, separator) == Some((before@, after@)),
            None => split_first(text@, separator) is None,
        },
{
    text.split_once(separator)
}

} // verus!
