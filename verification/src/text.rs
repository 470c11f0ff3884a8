//! Searching and comparing text, character by character.

use vstd::prelude::*;
use vstd::string::StrSliceExecFns;

verus! {

/// Whether `pattern` occurs in `text` as a run of neighbouring characters.
pub open spec fn has_run(text: Seq<char>, pattern: Seq<char>) -> bool {
    exists|i: int|
        0 <= i && i + pattern.len() <= text.len() && #[trigger] text.subrange(
            i,
            i + pattern.len(),
        ) == pattern
}

/// Whether `text` holds the character `wanted`.
pub fn contains_char(text: &str, wanted: char) -> (r: bool)
    ensures
        r == text@.contains(wanted),
{
    let len = text.unicode_len();
    let mut i: usize = 0;
    while i < len
        invariant
            len == text@.len(),
            i <= len,
            forall|k: int| 0 <= k < i ==> text@[k] != wanted,
        decreases len - i,
    {
        if text.get_char(i) == wanted {
            return true;
        }
        i += 1;
    }
    false
}

/// Whether `pattern` stands in `text` from position `start` on.
fn run_at(text: &str, pattern: &str, start: usize, pattern_len: usize) -> (r: bool)
    requires
        pattern_len == pattern@.len(),
        start + pattern_len <= text@.len(),
        start + pattern_len <= usize::MAX,
    ensures
        r == (text@.subrange(start as int, start + pattern_len) == pattern@),
{
    let ghost window = text@.subrange(start as int, start + pattern_len);
    let mut j: usize = 0;
    while j < pattern_len
        invariant
            pattern_len == pattern@.len(),
            start + pattern_len <= text@.len(),
            start + pattern_len <= usize::MAX,
            window == text@.subrange(start as int, start + pattern_len),
            j <= pattern_len,
            forall|k: int| 0 <= k < j ==> window[k] == pattern@[k],
        decreases pattern_len - j,
    {
        if text.get_char(start + j) != pattern.get_char(j) {
            assert(window[j as int] != pattern@[j as int]);
            return false;
        }
        j += 1;
    }
    assert(window =~= pattern@);
    true
}

/// Whether `pattern` occurs in `text` as a run of neighbouring characters.
pub fn contains_run(text: &str, pattern: &str) -> (r: bool)
    ensures
        r == has_run(text@, pattern@),
{
    let text_len = text.unicode_len();
    let pattern_len = pattern.unicode_len();
    if pattern_len > text_len {
        return false;
    }
    if pattern_len == 0 {
        assert(text@.subrange(0int, 0int + pattern@.len()) =~= pattern@);
        return true;
    }
    let starts = text_len - pattern_len + 1;
    let mut i: usize = 0;
    while i < starts
        invariant
            text_len == text@.len(),
            pattern_len == pattern@.len(),
            starts == text_len - pattern_len + 1,
            i <= starts,
            forall|k: int|
                0 <= k < i ==> #[trigger] text@.subrange(k, k + pattern@.len()) != pattern@,
        decreases starts - i,
    {
        if run_at(text, pattern, i, pattern_len) {
            return true;
        }
        i += 1;
    }
    false
}

/// Whether two texts hold the same characters.
pub fn same_text(a: &str, b: &str) -> (r: bool)
    ensures
        r == (a@ == b@),
{
    let len = a.unicode_len();
    if len != b.unicode_len() {
        return false;
    }
    assert(a@.subrange(0, 0 + len) =~= a@);
    run_at(a, b, 0, len)
}

} // verus!
