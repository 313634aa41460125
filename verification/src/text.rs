//! Text helpers: searching a string for a pattern.

use vstd::prelude::*;

verus! {

/// Whether `pat` stands in `s` at position `i`.
pub open spec fn occurs_at(s: Seq<char>, pat: Seq<char>, i: int) -> bool {
    0 <= i && i + pat.len() <= s.len() && s.subrange(i, i + pat.len()) == pat
}

/// Whether `pat` stands somewhere in `s`.
pub open spec fn occurs(s: Seq<char>, pat: Seq<char>) -> bool {
    exists|i: int| occurs_at(s, pat, i)
}

/// Whether `i` is the first position at which `pat` stands in `s`.
pub open spec fn first_occurrence(s: Seq<char>, pat: Seq<char>, i: int) -> bool {
    occurs_at(s, pat, i) && forall|j: int| 0 <= j < i ==> !occurs_at(s, pat, j)
}

/// What follows the first occurrence of `pat` in `s`, or all of `s` where `pat`
/// does not occur.
pub open spec fn after_first(s: Seq<char>, pat: Seq<char>) -> Seq<char> {
    if occurs(s, pat) {
        let i = choose|i: int| first_occurrence(s, pat, i);
        s.subrange(i + pat.len(), s.len() as int)
    } else {
        s
    }
}

/// Calls `str::contains` with a string pattern, which says whether the pattern
/// matches a part of the string.
#[verifier::external_body]
pub(crate) fn contains(s: &str, pat: &str) -> (r: bool)
    ensures
        r == occurs(s@, pat@),
{
    s.contains(pat)
}

/// Calls `str::split_once` with a string delimiter, which splits the string at
/// the first occurrence of the delimiter and returns what stands before and
/// after it, or nothing where the delimiter does not occur.
#[verifier::external_body]
pub(crate) fn split_once<'a>(s: &'a str, delimiter: &str) -> (r: Option<(&'a str, &'a str)>)
    ensures
        r.is_some() == occurs(s@, delimiter@),
        r matches Some((before, after)) ==> {
            &&& first_occurrence(s@, delimiter@, before@.len() as int)
            &&& before@ == s@.subrange(0, before@.len() as int)
            &&& after@ == s@.subrange((before@.len() + delimiter@.len()) as int, s@.len() as int)
        },
{
    s.split_once(delimiter)
}

/// There is only one first occurrence.
pub proof fn lemma_first_occurrence_unique(s: Seq<char>, pat: Seq<char>, i: int, j: int)
    requires
        first_occurrence(s, pat, i),
        first_occurrence(s, pat, j),
    ensures
        i == j,
{
    if i < j {
        assert(!occurs_at(s, pat, i));
    } else if j < i {
        assert(!occurs_at(s, pat, j));
    }
}

/// The text that follows the first occurrence of `pat` in `s`; all of `s`
/// where `pat` does not occur.
pub fn text_after_first(s: &str, pat: &str) -> (r: String)
    ensures
        r@ == after_first(s@, pat@),
{
    match split_once(s, pat) {
        Some((before, after)) => {
            proof {
                let i = before@.len() as int;
                let k = choose|k: int| first_occurrence(s@, pat@, k);
                assert(first_occurrence(s@, pat@, i));
                lemma_first_occurrence_unique(s@, pat@, i, k);
            }
            after.to_owned()
        },
        None => s.to_owned(),
    }
}

} // verus!
