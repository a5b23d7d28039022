//! Searching in text, and the parts of a file name.

use vstd::prelude::*;

verus! {

/// Whether `pattern` stands in `text` at position `at`.
pub open spec fn occurs_at(text: Seq<char>, pattern: Seq<char>, at: int) -> bool {
    &&& 0 <= at
    &&& at + pattern.len() <= text.len()
    &&& text.subrange(at, at + pattern.len()) == pattern
}

/// The position of the first occurrence of `pattern` in `text` at or after
/// `from`, if there is one.
pub open spec fn first_occurrence_from(text: Seq<char>, pattern: Seq<char>, from: int) -> Option<int>
    decreases text.len() - from + 1,
{
    if from < 0 || from + pattern.len() > text.len() {
        None
    } else if occurs_at(text, pattern, from) {
        Some(from)
    } else {
        first_occurrence_from(text, pattern, from + 1)
    }
}

/// The position of the first occurrence of `pattern` in `text`, if there is one.
pub open spec fn first_occurrence(text: Seq<char>, pattern: Seq<char>) -> Option<int> {
    first_occurrence_from(text, pattern, 0)
}

/// `first_occurrence_from` finds an occurrence at or after `from` that no
/// other one precedes, and finds none only where there is none.
pub proof fn lemma_first_occurrence_from(text: Seq<char>, pattern: Seq<char>, from: int)
    requires
        0 <= from,
    ensures
        match first_occurrence_from(text, pattern, from) {
            Some(at) => {
                &&& from <= at
                &&& occurs_at(text, pattern, at)
                &&& forall|j: int| from <= j < at ==> !occurs_at(text, pattern, j)
            },
            None => forall|j: int| from <= j ==> !occurs_at(text, pattern, j),
        },
    decreases text.len() - from + 1,
{
    if from + pattern.len() > text.len() {
    } else if occurs_at(text, pattern, from) {
    } else {
        lemma_first_occurrence_from(text, pattern, from + 1);
    }
}

/// The first occurrence is an occurrence that no other one precedes; there
/// is none exactly when the pattern occurs nowhere.
pub proof fn lemma_first_occurrence(text: Seq<char>, pattern: Seq<char>)
    ensures
        match first_occurrence(text, pattern) {
            Some(at) => {
                &&& occurs_at(text, pattern, at)
                &&& forall|j: int| j < at ==> !occurs_at(text, pattern, j)
            },
            None => forall|j: int| !occurs_at(text, pattern, j),
        },
{
    lemma_first_occurrence_from(text, pattern, 0);
}

/// The characters of a string, for access by position.
pub fn chars_of(text: &str) -> (chars: Vec<char>)
    ensures
        chars@ == text@,
{
    let mut chars: Vec<char> = Vec::new();
    for c in it: text.chars()
        invariant
            it.seq() == text@,
            chars@ == it.seq().take(it.index()),
    {
        chars.push(c);
    }
    chars
}

/// Whether `pattern` stands in `text` at position `at`.
pub fn matches_at(text: &Vec<char>, pattern: &Vec<char>, at: usize) -> (found: bool)
    ensures
        found == occurs_at(text@, pattern@, at as int),
{
    if at > text.len() || pattern.len() > text.len() - at {
        return false;
    }
    let mut k: usize = 0;
    while k < pattern.len()
        invariant
            k <= pattern.len(),
            at + pattern.len() <= text.len(),
            forall|j: int| 0 <= j < k ==> text@[at + j] == pattern@[j],
        decreases pattern.len() - k,
    {
        if text[at + k] != pattern[k] {
            proof {
                let window = text@.subrange(at as int, at + pattern.len());
                assert(window[k as int] == text@[at + k]);
            }
            return false;
        }
        k += 1;
    }
    assert(text@.subrange(at as int, at + pattern.len()) =~= pattern@);
    true
}

/// Finds the first occurrence of `pattern` in `text`.
pub fn find(text: &Vec<char>, pattern: &Vec<char>) -> (position: Option<usize>)
    ensures
        match position {
            Some(at) => first_occurrence(text@, pattern@) == Some(at as int),
            None => first_occurrence(text@, pattern@) is None,
        },
{
    if pattern.len() > text.len() {
        return None;
    }
    let last = text.len() - pattern.len();
    let mut at: usize = 0;
    while at < last
        invariant
            at <= last,
            last + pattern.len() == text.len(),
            first_occurrence(text@, pattern@) == first_occurrence_from(text@, pattern@, at as int),
        decreases last - at,
    {
        if matches_at(text, pattern, at) {
            return Some(at);
        }
        at += 1;
    }
    if matches_at(text, pattern, at) {
        Some(at)
    } else {
        assert(first_occurrence_from(text@, pattern@, at + 1) is None);
        None
    }
}

/// The position of the last occurrence of `c` in `text`, if there is one.
pub open spec fn last_index_of(text: Seq<char>, c: char) -> Option<int>
    decreases text.len(),
{
    if text.len() == 0 {
        None
    } else if text.last() == c {
        Some(text.len() - 1)
    } else {
        last_index_of(text.drop_last(), c)
    }
}

/// The last occurrence is an occurrence that no other one follows; there is
/// none exactly when the character occurs nowhere.
pub proof fn lemma_last_index_of(text: Seq<char>, c: char)
    ensures
        match last_index_of(text, c) {
            Some(at) => {
                &&& 0 <= at < text.len()
                &&& text[at] == c
                &&& forall|j: int| at < j < text.len() ==> text[j] != c
            },
            None => forall|j: int| 0 <= j < text.len() ==> text[j] != c,
        },
    decreases text.len(),
{
    if text.len() == 0 {
    } else if text.last() == c {
    } else {
        let front = text.drop_last();
        lemma_last_index_of(front, c);
        assert forall|j: int| 0 <= j < front.len() implies front[j] == text[j] by {}
    }
}

/// Finds the last occurrence of `c` in `text`.
pub fn rfind(text: &Vec<char>, c: char) -> (position: Option<usize>)
    ensures
        match position {
            Some(at) => last_index_of(text@, c) == Some(at as int),
            None => last_index_of(text@, c) is None,
        },
{
    let mut end: usize = text.len();
    assert(text@.take(end as int) =~= text@);
    while end > 0
        invariant
            end <= text.len(),
            last_index_of(text@, c) == last_index_of(text@.take(end as int), c),
        decreases end,
    {
        if text[end - 1] == c {
            return Some(end - 1);
        }
        proof {
            assert(text@.take(end as int).drop_last() =~= text@.take(end - 1));
        }
        end -= 1;
    }
    None
}

/// Where a file name divides into stem and extension: at its last dot,
/// unless that dot leads the name.
pub open spec fn extension_dot(name: Seq<char>) -> Option<int> {
    match last_index_of(name, '.') {
        Some(at) if at > 0 => Some(at),
        _ => None,
    }
}

/// A file name without its extension: the part before the last dot, or the
/// whole name if it has no dot or only a leading one.
pub open spec fn stem_of(name: Seq<char>) -> Seq<char> {
    match extension_dot(name) {
        Some(at) => name.take(at),
        None => name,
    }
}

/// The extension of a file name: the part after the last dot, if the name
/// has a dot other than a leading one.
pub open spec fn extension_of(name: Seq<char>) -> Option<Seq<char>> {
    match extension_dot(name) {
        Some(at) => Some(name.skip(at + 1)),
        None => None,
    }
}

/// Finds where a file name divides into stem and extension.
pub fn find_extension_dot(name: &Vec<char>) -> (position: Option<usize>)
    ensures
        match position {
            Some(at) => extension_dot(name@) == Some(at as int) && 0 < at < name.len(),
            None => extension_dot(name@) is None,
        },
{
    proof {
        lemma_last_index_of(name@, '.');
    }
    match rfind(name, '.') {
        Some(at) => if at > 0 {
            Some(at)
        } else {
            None
        },
        None => None,
    }
}

/// Strips the extension from a file name.
pub fn file_stem(name: &str) -> (stem: String)
    ensures
        stem@ == stem_of(name@),
{
    let chars = chars_of(name);
    match find_extension_dot(&chars) {
        Some(at) => name.substring_char(0, at).to_owned(),
        None => name.to_owned(),
    }
}

/// The extension of a file name.
pub fn extension(name: &str) -> (ext: Option<String>)
    ensures
        match ext {
            Some(text) => extension_of(name@) == Some(text@),
            None => extension_of(name@) is None,
        },
{
    let chars = chars_of(name);
    match find_extension_dot(&chars) {
        Some(at) => Some(name.substring_char(at + 1, chars.len()).to_owned()),
        None => None,
    }
}

} // verus!
