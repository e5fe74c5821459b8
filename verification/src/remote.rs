//! Finding the source address in the output of `git remote -v`.

use vstd::prelude::*;

verus! {

/// Regular expression of a GitHub address: the fixed prefix, then one or more
/// characters that are not white space.
pub const GITHUB_PATTERN: &'static str = "https://github\\.com/[^\\s]+";

/// The text that every GitHub address begins with.
pub open spec fn github_prefix() -> Seq<char> {
    "https://github.com/"@
}

/// White space as the pattern's `\s` understands it: the code points that
/// Unicode marks as `White_Space`.
pub open spec fn is_space(c: char) -> bool {
    let n = c as u32;
    ||| 0x09 <= n <= 0x0d
    ||| n == 0x20
    ||| n == 0x85
    ||| n == 0xa0
    ||| n == 0x1680
    ||| 0x2000 <= n <= 0x200a
    ||| 0x2028 <= n <= 0x2029
    ||| n == 0x202f
    ||| n == 0x205f
    ||| n == 0x3000
}

/// Whether a GitHub address starts at position `i` of `text`: the prefix
/// stands there, followed by at least one character that is not white space.
pub open spec fn address_starts_at(text: Seq<char>, i: int) -> bool {
    let p = github_prefix();
    &&& 0 <= i
    &&& i + p.len() < text.len()
    &&& text.subrange(i, i + p.len()) == p
    &&& !is_space(text[i + p.len()])
}

/// The first position at or after `from` where a GitHub address starts.
pub open spec fn first_start_from(text: Seq<char>, from: int) -> Option<int>
    decreases text.len() - from,
{
    if from < 0 || from >= text.len() {
        None
    } else if address_starts_at(text, from) {
        Some(from)
    } else {
        first_start_from(text, from + 1)
    }
}

/// The first position at or after `from` that holds white space, or the
/// length of `text` where none does.
pub open spec fn run_end(text: Seq<char>, from: int) -> int
    decreases text.len() - from,
{
    if from < 0 || from >= text.len() || is_space(text[from]) {
        from
    } else {
        run_end(text, from + 1)
    }
}

/// The first GitHub address in `text`: it begins at the leftmost position
/// where one starts and runs up to the next white space or the end.
pub open spec fn first_github_address(text: Seq<char>) -> Option<Seq<char>> {
    match first_start_from(text, 0) {
        Some(i) => Some(text.subrange(i, run_end(text, i + github_prefix().len()))),
        None => None,
    }
}

/// `first_start_from` finds the least position at or after `from` where an
/// address starts, and finds none only where none starts there.
pub proof fn lemma_first_start(text: Seq<char>, from: int)
    requires
        0 <= from,
    ensures
        match first_start_from(text, from) {
            Some(i) => from <= i && address_starts_at(text, i) && forall|j: int|
                from <= j < i ==> !address_starts_at(text, j),
            None => forall|j: int| from <= j ==> !address_starts_at(text, j),
        },
    decreases text.len() - from,
{
    if from < text.len() && !address_starts_at(text, from) {
        lemma_first_start(text, from + 1);
    }
}

/// A text in which no address starts anywhere holds no address.
pub proof fn lemma_no_address(text: Seq<char>)
    ensures
        first_github_address(text) is None <==> forall|i: int| !address_starts_at(text, i),
{
    lemma_first_start(text, 0);
}

/// The address that was found is a piece of the text, begins with the
/// prefix, is longer than it and holds no white space after the prefix.
pub proof fn lemma_address_shape(text: Seq<char>)
    requires
        first_github_address(text) is Some,
    ensures
        ({
            let found = first_github_address(text)->Some_0;
            let p = github_prefix();
            &&& found.len() > p.len()
            &&& found.subrange(0, p.len() as int) == p
            &&& forall|k: int| p.len() <= k < found.len() ==> !is_space(#[trigger] found[k])
        }),
{
    lemma_first_start(text, 0);
    let i = first_start_from(text, 0)->Some_0;
    let p = github_prefix();
    let start = i + p.len();
    lemma_run_end(text, start);
    let found = text.subrange(i, run_end(text, start));
    assert(found.subrange(0, p.len() as int) =~= text.subrange(i, i + p.len()));
}

/// `run_end` stops at white space or at the end, and passes over none.
pub proof fn lemma_run_end(text: Seq<char>, from: int)
    requires
        0 <= from <= text.len(),
    ensures
        from <= run_end(text, from) <= text.len(),
        run_end(text, from) < text.len() ==> is_space(text[run_end(text, from)]),
        forall|k: int| from <= k < run_end(text, from) ==> !is_space(#[trigger] text[k]),
        from < text.len() && !is_space(text[from]) ==> run_end(text, from) > from,
    decreases text.len() - from,
{
    if from < text.len() && !is_space(text[from]) {
        lemma_run_end(text, from + 1);
    }
}

/// Runs `Regex::new` on the pattern and `Regex::find` on the text. For the
/// GitHub pattern the regex crate compiles without error and returns the
/// leftmost match, with the greedy repetition taken as far as it goes: the
/// contract spells that out as `first_github_address`.
#[verifier::external_body]
fn regex_find(pattern: &str, text: &str) -> (found: Option<String>)
    requires
        pattern@ == GITHUB_PATTERN@,
    ensures
        found.deep_view() == first_github_address(text@),
{
    let re = regex::Regex::new(pattern).unwrap();
    re.find(text).map(|m| m.as_str().to_owned())
}

/// Returns the first GitHub address in the remote listing, if it holds one.
/// What is returned begins with the prefix, goes on for at least one more
/// character, and holds no white space after the prefix.
pub fn find_github_url(listing: &str) -> (found: Option<String>)
    ensures
        found.deep_view() == first_github_address(listing@),
        found is None <==> forall|i: int| !address_starts_at(listing@, i),
        found matches Some(url) ==> {
            let p = github_prefix();
            &&& url@.len() > p.len()
            &&& url@.subrange(0, p.len() as int) == p
            &&& forall|k: int| p.len() <= k < url@.len() ==> !is_space(#[trigger] url@[k])
        },
{
    proof {
        lemma_no_address(listing@);
        if first_github_address(listing@) is Some {
            lemma_address_shape(listing@);
        }
    }
    regex_find(GITHUB_PATTERN, listing)
}

} // verus!
