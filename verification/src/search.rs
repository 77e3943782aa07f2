//! Finding a track by a part of its name, whatever the case of the letters.

use crate::text::{chars_of, texts};
use vstd::prelude::*;

verus! {

/// What `str::to_lowercase` makes of a text.
pub uninterp spec fn lowercase_of(s: Seq<char>) -> Seq<char>;

/// `str::to_lowercase` of std: the text with each character replaced by its lowercase
/// form, as Unicode defines it. The result depends on the text alone.
#[verifier::external_body]
fn lowercase(s: &str) -> (lower: String)
    ensures
        lower@ == lowercase_of(s@),
{
    s.to_lowercase()
}

/// Whether `needle` stands in `hay` from place `at` on.
pub open spec fn occurs_at(hay: Seq<char>, needle: Seq<char>, at: int) -> bool {
    0 <= at && at + needle.len() <= hay.len() && hay.subrange(at, at + needle.len()) == needle
}

/// Whether `needle` stands somewhere in `hay`.
pub open spec fn occurs_in(hay: Seq<char>, needle: Seq<char>) -> bool {
    exists|at: int| occurs_at(hay, needle, at)
}

/// Whether the track called `name` answers the query: the query stands in the name,
/// both taken in lowercase.
pub open spec fn answers(name: Seq<char>, query: Seq<char>) -> bool {
    occurs_in(lowercase_of(name), lowercase_of(query))
}

/// Whether `found` is the first of `names` that answers `query`, or nothing where
/// none does.
pub open spec fn is_first_answer(names: Seq<Seq<char>>, query: Seq<char>, found: Option<int>) -> bool {
    match found {
        Some(i) => {
            &&& 0 <= i < names.len()
            &&& answers(names[i], query)
            &&& forall|k: int| 0 <= k < i ==> !answers(#[trigger] names[k], query)
        },
        None => forall|k: int| 0 <= k < names.len() ==> !answers(#[trigger] names[k], query),
    }
}

/// The first of `names` that answers `query`, or nothing where none does.
pub open spec fn first_answer_of(names: Seq<Seq<char>>, query: Seq<char>) -> Option<int> {
    choose|found: Option<int>| is_first_answer(names, query, found)
}

/// There is one first answer to a query, and no other.
pub proof fn lemma_first_answer_unique(
    names: Seq<Seq<char>>,
    query: Seq<char>,
    a: Option<int>,
    b: Option<int>,
)
    requires
        is_first_answer(names, query, a),
        is_first_answer(names, query, b),
    ensures
        a == b,
        a == first_answer_of(names, query),
{
    let c = first_answer_of(names, query);
    assert(is_first_answer(names, query, c));
    lemma_same_answer(names, query, a, b);
    lemma_same_answer(names, query, a, c);
}

/// Two first answers to one query are the same.
proof fn lemma_same_answer(names: Seq<Seq<char>>, query: Seq<char>, a: Option<int>, b: Option<int>)
    requires
        is_first_answer(names, query, a),
        is_first_answer(names, query, b),
    ensures
        a == b,
{
    match (a, b) {
        (Some(i), Some(j)) => {
            if i < j {
                assert(!answers(names[i], query));
            } else if j < i {
                assert(!answers(names[j], query));
            }
        },
        (Some(i), None) => {
            assert(!answers(names[i], query));
        },
        (None, Some(j)) => {
            assert(!answers(names[j], query));
        },
        (None, None) => {},
    }
}

/// A query that no name answers has no first answer.
pub proof fn lemma_no_answer(names: Seq<Seq<char>>, query: Seq<char>)
    requires
        forall|k: int| 0 <= k < names.len() ==> !answers(#[trigger] names[k], query),
    ensures
        first_answer_of(names, query).is_none(),
{
    lemma_first_answer_unique(names, query, None, None);
}

/// The index `found` as a place in the list.
pub open spec fn as_place(found: Option<usize>) -> Option<int> {
    match found {
        Some(i) => Some(i as int),
        None => None,
    }
}

/// Whether `needle` stands in `hay` from place `at` on.
fn matches_at(hay: &Vec<char>, needle: &Vec<char>, at: usize) -> (same: bool)
    requires
        at + needle.len() <= hay.len(),
    ensures
        same == occurs_at(hay@, needle@, at as int),
{
    let ghost part = hay@.subrange(at as int, at + needle.len());
    let mut i: usize = 0;
    while i < needle.len()
        invariant
            at + needle.len() <= hay.len(),
            i <= needle.len(),
            part == hay@.subrange(at as int, at + needle.len()),
            forall|k: int| 0 <= k < i ==> part[k] == needle@[k],
        decreases needle.len() - i,
    {
        if hay[at + i] != needle[i] {
            assert(part[i as int] != needle@[i as int]);
            return false;
        }
        i += 1;
    }
    assert(part =~= needle@);
    true
}

/// Whether `needle` stands somewhere in `hay`. The empty text stands in every text.
pub fn contains(hay: &str, needle: &str) -> (found: bool)
    ensures
        found == occurs_in(hay@, needle@),
{
    let text = chars_of(hay);
    let part = chars_of(needle);
    if part.len() > text.len() {
        assert forall|at: int| !occurs_at(hay@, needle@, at) by {}
        return false;
    }
    let last: usize = text.len() - part.len();
    let mut at: usize = 0;
    loop
        invariant
            text@ == hay@,
            part@ == needle@,
            last == text.len() - part.len(),
            at <= last,
            forall|k: int| 0 <= k < at ==> !occurs_at(hay@, needle@, k),
        decreases last - at,
    {
        if matches_at(&text, &part, at) {
            assert(occurs_at(hay@, needle@, at as int));
            return true;
        }
        if at == last {
            assert forall|k: int| !occurs_at(hay@, needle@, k) by {}
            return false;
        }
        at += 1;
    }
}

/// Whether the track called `name` answers `query`, whatever the case of the letters.
pub fn name_answers(name: &str, query: &str) -> (yes: bool)
    ensures
        yes == answers(name@, query@),
{
    let name = lowercase(name);
    let query = lowercase(query);
    contains(name.as_str(), query.as_str())
}

/// The first of `names` that answers `query`, if one does.
pub fn first_answer(names: &Vec<String>, query: &str) -> (found: Option<usize>)
    ensures
        is_first_answer(texts(names@), query@, as_place(found)),
        as_place(found) == first_answer_of(texts(names@), query@),
        found matches Some(i) ==> i < names@.len(),
{
    let ghost views = texts(names@);
    let mut i: usize = 0;
    while i < names.len()
        invariant
            i <= names.len(),
            views == texts(names@),
            forall|k: int| 0 <= k < i ==> !answers(#[trigger] views[k], query@),
        decreases names.len() - i,
    {
        if name_answers(names[i].as_str(), query) {
            proof {
                assert(answers(views[i as int], query@));
                lemma_first_answer_unique(views, query@, Some(i as int), Some(i as int));
            }
            return Some(i);
        }
        i += 1;
    }
    proof {
        lemma_first_answer_unique(views, query@, None, None);
    }
    None
}

} // verus!
