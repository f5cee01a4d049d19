//! Searching in character sequences: where a pattern first occurs, and where
//! a character occurs last.

use vstd::prelude::*;
use vstd::std_specs::iter::IteratorSpec;

verus! {

/// True when `pattern` stands in `text` at index `at`.
pub open spec fn occurs_at(text: Seq<char>, pattern: Seq<char>, at: int) -> bool {
    &&& 0 <= at
    &&& at + pattern.len() <= text.len()
    &&& text.subrange(at, at + pattern.len()) == pattern
}

/// True when `pattern` stands somewhere in `text`.
pub open spec fn contains(text: Seq<char>, pattern: Seq<char>) -> bool {
    exists|at: int| occurs_at(text, pattern, at)
}

/// True when `at` is the leftmost index at which `pattern` stands in `text`.
pub open spec fn is_first_occurrence(text: Seq<char>, pattern: Seq<char>, at: int) -> bool {
    &&& occurs_at(text, pattern, at)
    &&& forall|earlier: int| 0 <= earlier < at ==> !occurs_at(text, pattern, earlier)
}

/// The leftmost index at which `pattern` stands in `text`.
pub open spec fn first_occurrence(text: Seq<char>, pattern: Seq<char>) -> int
    recommends
        contains(text, pattern),
{
    choose|at: int| is_first_occurrence(text, pattern, at)
}

/// True when `at` is the rightmost index of `text` that holds `c`.
pub open spec fn is_last_index_of(text: Seq<char>, c: char, at: int) -> bool {
    &&& 0 <= at < text.len()
    &&& text[at] == c
    &&& forall|later: int| at < later < text.len() ==> text[later] != c
}

/// The rightmost index of `text` that holds `c`.
pub open spec fn last_index_of(text: Seq<char>, c: char) -> int
    recommends
        text.contains(c),
{
    choose|at: int| is_last_index_of(text, c, at)
}

/// A leftmost occurrence is the only one: whatever index meets
/// `is_first_occurrence` is the value of `first_occurrence`.
pub proof fn lemma_first_occurrence_unique(text: Seq<char>, pattern: Seq<char>, at: int)
    requires
        is_first_occurrence(text, pattern, at),
    ensures
        contains(text, pattern),
        first_occurrence(text, pattern) == at,
{
    let chosen = first_occurrence(text, pattern);
    assert(is_first_occurrence(text, pattern, chosen));
    if chosen < at {
        assert(!occurs_at(text, pattern, chosen));
    } else if at < chosen {
        assert(!occurs_at(text, pattern, at));
    }
}

/// Below any index at which `pattern` stands there is a leftmost one.
proof fn lemma_first_occurrence_up_to(text: Seq<char>, pattern: Seq<char>, at: int)
    requires
        occurs_at(text, pattern, at),
    ensures
        exists|first: int| is_first_occurrence(text, pattern, first),
    decreases at,
{
    if exists|earlier: int| 0 <= earlier < at && occurs_at(text, pattern, earlier) {
        let earlier = choose|earlier: int| 0 <= earlier < at && occurs_at(text, pattern, earlier);
        lemma_first_occurrence_up_to(text, pattern, earlier);
    } else {
        assert(is_first_occurrence(text, pattern, at));
    }
}

/// Where `pattern` stands in `text` at all, `first_occurrence` is its
/// leftmost index.
pub proof fn lemma_first_occurrence_exists(text: Seq<char>, pattern: Seq<char>)
    requires
        contains(text, pattern),
    ensures
        is_first_occurrence(text, pattern, first_occurrence(text, pattern)),
{
    let at = choose|at: int| occurs_at(text, pattern, at);
    lemma_first_occurrence_up_to(text, pattern, at);
}

/// A rightmost index is the only one: whatever index meets
/// `is_last_index_of` is the value of `last_index_of`.
pub proof fn lemma_last_index_of_unique(text: Seq<char>, c: char, at: int)
    requires
        is_last_index_of(text, c, at),
    ensures
        text.contains(c),
        last_index_of(text, c) == at,
{
    let chosen = last_index_of(text, c);
    assert(is_last_index_of(text, c, chosen));
}

/// The characters of `s`, in order.
pub fn to_chars(s: &str) -> (chars: Vec<char>)
    ensures
        chars@ == s@,
{
    broadcast use {vstd::string::axiom_spec_iter, vstd::string::next_postcondition};

    let mut chars: Vec<char> = Vec::new();
    let mut rest = s.chars();
    loop
        invariant
            chars@ + rest.remaining() == s@,
        decreases s@.len() - chars@.len(),
    {
        match rest.next() {
            Some(c) => {
                chars.push(c);
                assert(chars@ + rest.remaining() =~= s@);
            },
            None => {
                assert(chars@ =~= s@);
                return chars;
            },
        }
    }
}

/// True when `pattern` stands in `text` at index `at`.
fn matches_at(text: &[char], pattern: &[char], at: usize) -> (found: bool)
    requires
        at + pattern@.len() <= text@.len(),
    ensures
        found == occurs_at(text@, pattern@, at as int),
{
    let len: usize = text.len();
    let mut k: usize = 0;
    while k < pattern.len()
        invariant
            k <= pattern@.len(),
            at + pattern@.len() <= text@.len() == len,
            forall|j: int| 0 <= j < k ==> text@[at + j] == pattern@[j],
        decreases pattern@.len() - k,
    {
        if text[at + k] != pattern[k] {
            assert(text@.subrange(at as int, at + pattern@.len())[k as int] != pattern@[k as int]);
            return false;
        }
        k = k + 1;
    }
    assert(text@.subrange(at as int, at + pattern@.len()) =~= pattern@);
    true
}

/// Finds the leftmost index at which `pattern` stands in `text`.
pub fn find(text: &[char], pattern: &[char]) -> (found: Option<usize>)
    ensures
        match found {
            Some(at) => is_first_occurrence(text@, pattern@, at as int),
            None => !contains(text@, pattern@),
        },
{
    if pattern.len() > text.len() {
        return None;
    }
    let last: usize = text.len() - pattern.len();
    let mut at: usize = 0;
    loop
        invariant
            at <= last,
            last == text@.len() - pattern@.len(),
            forall|earlier: int| 0 <= earlier < at ==> !occurs_at(text@, pattern@, earlier),
        decreases last - at,
    {
        if matches_at(text, pattern, at) {
            return Some(at);
        }
        if at == last {
            return None;
        }
        at = at + 1;
    }
}

/// Finds the rightmost index at which `text` holds `c`.
pub fn rfind_char(text: &[char], c: char) -> (found: Option<usize>)
    ensures
        match found {
            Some(at) => is_last_index_of(text@, c, at as int),
            None => !text@.contains(c),
        },
{
    let mut at: usize = text.len();
    while at > 0
        invariant
            at <= text@.len(),
            forall|later: int| at <= later < text@.len() ==> text@[later] != c,
        decreases at,
    {
        at = at - 1;
        if text[at] == c {
            return Some(at);
        }
    }
    None
}

} // verus!
