//! Prefix, equality and substring tests on character sequences.

use vstd::prelude::*;

verus! {

/// True when `pattern` occurs somewhere in `text`.
pub open spec fn has_substring(text: Seq<char>, pattern: Seq<char>) -> bool {
    exists|i: int| occurs_at(text, pattern, i)
}

/// True when `pattern` stands in `text` at position `i`.
pub open spec fn occurs_at(text: Seq<char>, pattern: Seq<char>, i: int) -> bool {
    &&& 0 <= i
    &&& i + pattern.len() <= text.len()
    &&& text.subrange(i, i + pattern.len()) == pattern
}

/// The characters of a string slice.
pub fn to_chars(s: &str) -> (chars: Vec<char>)
    ensures
        chars@ == s@,
{
    let mut chars: Vec<char> = Vec::new();
    for c in it: s.chars()
        invariant
            it.seq() == s@,
            chars@ == s@.take(it.index()),
    {
        chars.push(c);
    }
    chars
}

/// Tests whether `pattern` stands in `text` at position `start`.
pub fn matches_at(text: &[char], start: usize, pattern: &[char]) -> (found: bool)
    ensures
        found == occurs_at(text@, pattern@, start as int),
{
    if text.len() < pattern.len() || start > text.len() - pattern.len() {
        return false;
    }
    let mut i: usize = 0;
    while i < pattern.len()
        invariant
            i <= pattern@.len(),
            start + pattern@.len() <= text@.len() <= usize::MAX,
            forall|j: int| 0 <= j < i ==> text@[start + j] == pattern@[j],
        decreases pattern@.len() - i,
    {
        if text[start + i] != pattern[i] {
            return false;
        }
        i += 1;
    }
    assert(text@.subrange(start as int, start + pattern@.len()) =~= pattern@);
    true
}

/// Tests whether `text` begins with `pattern`.
pub fn starts_with(text: &[char], pattern: &[char]) -> (found: bool)
    ensures
        found == pattern@.is_prefix_of(text@),
{
    matches_at(text, 0, pattern)
}

/// Tests whether the two sequences are the same.
pub fn same_chars(a: &[char], b: &[char]) -> (same: bool)
    ensures
        same == (a@ == b@),
{
    if a.len() != b.len() {
        return false;
    }
    let found = matches_at(a, 0, b);
    assert(a@.subrange(0, a@.len() as int) =~= a@);
    found
}

/// Tests whether `pattern` occurs somewhere in `text`.
pub fn contains(text: &[char], pattern: &[char]) -> (found: bool)
    ensures
        found == has_substring(text@, pattern@),
{
    if text.len() < pattern.len() {
        return false;
    }
    let last = text.len() - pattern.len();
    let mut start: usize = 0;
    loop
        invariant
            last == text@.len() - pattern@.len(),
            start <= last,
            forall|i: int| 0 <= i < start ==> !occurs_at(text@, pattern@, i),
        decreases last - start,
    {
        if matches_at(text, start, pattern) {
            return true;
        }
        if start == last {
            return false;
        }
        start += 1;
    }
}

} // verus!
