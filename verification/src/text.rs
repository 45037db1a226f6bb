//! Text as sequences of characters: comparison, suffixes, path segments and
//! the replacement of every occurrence of a pattern.

use vstd::prelude::*;

verus! {

/// `pattern` stands in `text` at offset `at`.
pub open spec fn occurs_at(text: Seq<char>, pattern: Seq<char>, at: int) -> bool {
    &&& 0 <= at
    &&& at + pattern.len() <= text.len()
    &&& text.subrange(at, at + pattern.len()) == pattern
}

/// `text` with every occurrence of `pattern` replaced by `replacement`.
///
/// Occurrences are found from the left and do not overlap. An empty pattern
/// occurs before every character and once more at the end.
pub open spec fn replaced(text: Seq<char>, pattern: Seq<char>, replacement: Seq<char>) -> Seq<char>
    decreases text.len(),
{
    if text.len() == 0 {
        if pattern.len() == 0 {
            replacement
        } else {
            text
        }
    } else if pattern.len() == 0 {
        replacement + text.take(1) + replaced(text.skip(1), pattern, replacement)
    } else if occurs_at(text, pattern, 0) {
        replacement + replaced(text.skip(pattern.len() as int), pattern, replacement)
    } else {
        text.take(1) + replaced(text.skip(1), pattern, replacement)
    }
}

/// A character that parts the segments of a path.
pub open spec fn is_separator(c: char) -> bool {
    c == '/' || c == '\\'
}

/// A segment `..` stands in `path` at offset `at`.
pub open spec fn parent_segment_at(path: Seq<char>, at: int) -> bool {
    &&& 0 <= at
    &&& at + 2 <= path.len()
    &&& path[at] == '.'
    &&& path[at + 1] == '.'
    &&& (at == 0 || is_separator(path[at - 1]))
    &&& (at + 2 == path.len() || is_separator(path[at + 2]))
}

/// Some segment of `path` is `..`.
pub open spec fn has_parent_segment(path: Seq<char>) -> bool {
    exists|at: int| parent_segment_at(path, at)
}

/// The characters of `text`, in order.
pub fn chars_of(text: &str) -> (chars: Vec<char>)
    ensures
        chars@ == text@,
{
    let mut chars: Vec<char> = Vec::new();
    for c in it: text.chars()
        invariant
            chars@ == it.seq().take(it.index() as int),
    {
        chars.push(c);
    }
    chars
}

/// Whether two sequences of characters are the same.
pub fn same_chars(a: &Vec<char>, b: &Vec<char>) -> (same: bool)
    ensures
        same == (a@ == b@),
{
    if a.len() != b.len() {
        return false;
    }
    let mut i: usize = 0;
    while i < a.len()
        invariant
            a.len() == b.len(),
            i <= a.len(),
            forall|k: int| 0 <= k < i ==> a@[k] == b@[k],
        decreases a.len() - i,
    {
        if a[i] != b[i] {
            return false;
        }
        i += 1;
    }
    assert(a@ =~= b@);
    true
}

/// Whether two texts are the same.
pub fn same_text(a: &str, b: &str) -> (same: bool)
    ensures
        same == (a@ == b@),
{
    let a_chars = chars_of(a);
    let b_chars = chars_of(b);
    same_chars(&a_chars, &b_chars)
}

/// Whether `pattern` stands in `text` at offset `at`.
pub fn matches_at(text: &Vec<char>, pattern: &Vec<char>, at: usize) -> (found: bool)
    ensures
        found == occurs_at(text@, pattern@, at as int),
{
    if at > text.len() || pattern.len() > text.len() - at {
        return false;
    }
    let mut k: usize = 0;
    while k < pattern.len()
        invariant
            at + pattern.len() <= text.len(),
            k <= pattern.len(),
            forall|j: int| 0 <= j < k ==> text@[at + j] == pattern@[j],
        decreases pattern.len() - k,
    {
        if text[at + k] != pattern[k] {
            return false;
        }
        k += 1;
    }
    assert(text@.subrange(at as int, at + pattern.len()) =~= pattern@);
    true
}

/// Whether the characters `text` end with `suffix`.
pub fn chars_end_with(text: &Vec<char>, suffix: &str) -> (found: bool)
    ensures
        found == suffix@.is_suffix_of(text@),
{
    let suffix_chars = chars_of(suffix);
    if suffix_chars.len() > text.len() {
        return false;
    }
    matches_at(text, &suffix_chars, text.len() - suffix_chars.len())
}

/// Whether some segment of `path` is `..`.
pub fn contains_parent_segment(path: &str) -> (found: bool)
    ensures
        found == has_parent_segment(path@),
{
    let chars = chars_of(path);
    let n: usize = chars.len();
    if n < 2 {
        return false;
    }
    let mut at: usize = 0;
    while at <= n - 2
        invariant
            2 <= n,
            n == chars.len(),
            chars@ == path@,
            at <= n,
            forall|k: int| 0 <= k < at ==> !parent_segment_at(path@, k),
        decreases n - at,
    {
        let dots = chars[at] == '.' && chars[at + 1] == '.';
        let opens = at == 0 || chars[at - 1] == '/' || chars[at - 1] == '\\';
        let closes = at + 2 == n || chars[at + 2] == '/' || chars[at + 2] == '\\';
        if dots && opens && closes {
            assert(parent_segment_at(path@, at as int));
            return true;
        }
        at += 1;
    }
    false
}

/// Where the pattern does not stand at `at`, the character there stays.
proof fn replaced_skips(text: Seq<char>, pattern: Seq<char>, replacement: Seq<char>, at: int)
    requires
        0 <= at < text.len(),
        pattern.len() > 0,
        !occurs_at(text, pattern, at),
    ensures
        replaced(text.skip(at), pattern, replacement) == text.subrange(at, at + 1) + replaced(
            text.skip(at + 1),
            pattern,
            replacement,
        ),
{
    let rest = text.skip(at);
    if at + pattern.len() <= text.len() {
        assert(rest.subrange(0, pattern.len() as int) =~= text.subrange(at, at + pattern.len()));
    }
    assert(rest.skip(1) =~= text.skip(at + 1));
}

/// Where the pattern stands at `at`, the replacement takes its place.
proof fn replaced_matches(text: Seq<char>, pattern: Seq<char>, replacement: Seq<char>, at: int)
    requires
        0 <= at < text.len(),
        pattern.len() > 0,
        occurs_at(text, pattern, at),
    ensures
        replaced(text.skip(at), pattern, replacement) == replacement + replaced(
            text.skip(at + pattern.len()),
            pattern,
            replacement,
        ),
{
    let rest = text.skip(at);
    assert(rest.subrange(0, pattern.len() as int) =~= text.subrange(at, at + pattern.len()));
    assert(rest.skip(pattern.len() as int) =~= text.skip(at + pattern.len()));
}

/// The empty pattern stands before the character at `at`.
proof fn replaced_empty_pattern(
    text: Seq<char>,
    pattern: Seq<char>,
    replacement: Seq<char>,
    at: int,
)
    requires
        0 <= at < text.len(),
        pattern.len() == 0,
    ensures
        replaced(text.skip(at), pattern, replacement) == replacement + text.subrange(at, at + 1)
            + replaced(text.skip(at + 1), pattern, replacement),
{
    let rest = text.skip(at);
    assert(rest.skip(1) =~= text.skip(at + 1));
}

/// `replacement` before every character of `text`, and once more at the end.
fn interleave(text: &str, replacement: &str) -> (out: String)
    ensures
        out@ == replaced(text@, Seq::<char>::empty(), replacement@),
{
    let n: usize = text.unicode_len();
    let ghost pattern = Seq::<char>::empty();
    let mut out = String::new();
    let mut at: usize = 0;
    assert(text@.skip(0) =~= text@);
    while at < n
        invariant
            n == text@.len(),
            at <= n,
            pattern.len() == 0,
            replaced(text@, pattern, replacement@) == out@ + replaced(
                text@.skip(at as int),
                pattern,
                replacement@,
            ),
        decreases n - at,
    {
        proof {
            replaced_empty_pattern(text@, pattern, replacement@, at as int);
        }
        out.append(replacement);
        out.append(text.substring_char(at, at + 1));
        at += 1;
    }
    out.append(replacement);
    out
}

/// `text` with every occurrence of `pattern` replaced by `replacement`.
pub fn replace_all(text: &str, pattern: &str, replacement: &str) -> (out: String)
    ensures
        out@ == replaced(text@, pattern@, replacement@),
{
    let chars = chars_of(text);
    let wanted = chars_of(pattern);
    let n: usize = chars.len();
    let m: usize = wanted.len();
    if m == 0 {
        assert(pattern@ =~= Seq::<char>::empty());
        return interleave(text, replacement);
    }
    let mut out = String::new();
    let mut kept: usize = 0;
    let mut at: usize = 0;
    assert(text@.skip(0) =~= text@);
    while at < n
        invariant
            chars@ == text@,
            wanted@ == pattern@,
            n == chars.len(),
            m == wanted.len(),
            m > 0,
            kept <= at <= n,
            replaced(text@, pattern@, replacement@) == out@ + text@.subrange(kept as int, at as int)
                + replaced(text@.skip(at as int), pattern@, replacement@),
        decreases n - at,
    {
        if matches_at(&chars, &wanted, at) {
            proof {
                replaced_matches(text@, pattern@, replacement@, at as int);
            }
            out.append(text.substring_char(kept, at));
            out.append(replacement);
            at += m;
            kept = at;
        } else {
            proof {
                replaced_skips(text@, pattern@, replacement@, at as int);
            }
            at += 1;
        }
    }
    out.append(text.substring_char(kept, n));
    out
}

} // verus!
