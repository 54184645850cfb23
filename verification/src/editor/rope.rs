//! The rope that holds a buffer's text, seen as the sequence of its
//! characters.
//!
//! Nothing in this file's wrappers is proved. Each calls one method of
//! `ropey::Rope` and states what that method's documentation says, over the
//! text of the rope and the line structure defined here, which is the one
//! `ropey` documents for its default build.

use vstd::prelude::*;

verus! {

/// `ropey::Rope`: a text held as a rope. The library sees nothing inside
/// it.
#[verifier::external_type_specification]
#[verifier::external_body]
pub struct ExRope(ropey::Rope);

/// The characters a rope holds, in order.
pub uninterp spec fn rope_text(r: ropey::Rope) -> Seq<char>;

/// Whether a line break ends with the character at index `i`: a line
/// feed, vertical tab, form feed, next-line, line separator or paragraph
/// separator, or a carriage return that no line feed follows (one that a
/// line feed follows forms a single break with it).
pub open spec fn ends_line_break(text: Seq<char>, i: int) -> bool
    recommends
        0 <= i < text.len(),
{
    let c = text[i];
    ||| c == '\n'
    ||| c == '\u{b}'
    ||| c == '\u{c}'
    ||| c == '\u{85}'
    ||| c == '\u{2028}'
    ||| c == '\u{2029}'
    ||| (c == '\r' && !(i + 1 < text.len() && text[i + 1] == '\n'))
}

/// The number of line breaks that end before index `upto`.
pub open spec fn line_breaks(text: Seq<char>, upto: int) -> nat
    decreases upto,
{
    if upto <= 0 {
        0
    } else if ends_line_break(text, upto - 1) {
        line_breaks(text, upto - 1) + 1
    } else {
        line_breaks(text, upto - 1)
    }
}

/// The number of lines of a text: one more than it has line breaks. A text
/// that ends with a line break has an empty last line.
pub open spec fn line_count(text: Seq<char>) -> nat {
    line_breaks(text, text.len() as int) + 1
}

/// The index at which the `line`-th line from `from` on starts, counting
/// the line that `from` lies in as line 0; the length of the text if there
/// are not that many lines.
pub open spec fn line_start_from(text: Seq<char>, line: nat, from: int) -> int
    decreases text.len() - from,
{
    if from >= text.len() {
        text.len() as int
    } else if line == 0 {
        from
    } else if ends_line_break(text, from) {
        line_start_from(text, (line - 1) as nat, from + 1)
    } else {
        line_start_from(text, line, from + 1)
    }
}

/// The index of the first character of line `line`: 0 for line 0, else
/// the index behind the `line`-th line break; the length of the text for
/// the line one past the last.
pub open spec fn line_start(text: Seq<char>, line: nat) -> int {
    line_start_from(text, line, 0)
}

/// `Rope::new`: an empty rope.
#[verifier::external_body]
pub(crate) fn rope_new() -> (r: ropey::Rope)
    ensures
        rope_text(r) == Seq::<char>::empty(),
{
    ropey::Rope::new()
}

/// `Rope::from_str`: a rope that holds the text.
#[verifier::external_body]
pub(crate) fn rope_from_str(text: &str) -> (r: ropey::Rope)
    ensures
        rope_text(r) == text@,
{
    ropey::Rope::from_str(text)
}

/// The `clone` of a rope: a rope with the same text.
pub assume_specification[ <ropey::Rope as Clone>::clone ](r: &ropey::Rope) -> (copy: ropey::Rope)
    ensures
        rope_text(copy) == rope_text(*r),
;

/// `Rope::len_chars`: the number of characters.
#[verifier::external_body]
pub(crate) fn rope_len_chars(r: &ropey::Rope) -> (n: usize)
    ensures
        n == rope_text(*r).len(),
{
    r.len_chars()
}

/// `Rope::len_lines`: the number of lines, one more than the line breaks.
#[verifier::external_body]
pub(crate) fn rope_len_lines(r: &ropey::Rope) -> (n: usize)
    ensures
        n == line_count(rope_text(*r)),
{
    r.len_lines()
}

/// `Rope::line_to_char`: the index of the first character of a line; the
/// line one past the last is allowed and gives the length of the text. It
/// panics on a line further out.
#[verifier::external_body]
pub(crate) fn rope_line_to_char(r: &ropey::Rope, line_idx: usize) -> (start: usize)
    requires
        line_idx <= line_count(rope_text(*r)),
    ensures
        start == line_start(rope_text(*r), line_idx as nat),
{
    r.line_to_char(line_idx)
}

/// `Rope::char_to_line`: the number of line breaks that end before the
/// character; the index one past the last character is allowed. It panics
/// on an index further out.
#[verifier::external_body]
pub(crate) fn rope_char_to_line(r: &ropey::Rope, char_idx: usize) -> (line: usize)
    requires
        char_idx <= rope_text(*r).len(),
    ensures
        line == line_breaks(rope_text(*r), char_idx as int),
{
    r.char_to_line(char_idx)
}

/// `Rope::line` and `RopeSlice::len_chars`: the length of a line with its
/// line break. `line` panics on a line that does not exist.
#[verifier::external_body]
pub(crate) fn rope_line_len_chars(r: &ropey::Rope, line_idx: usize) -> (len: usize)
    requires
        line_idx < line_count(rope_text(*r)),
    ensures
        len == line_start(rope_text(*r), (line_idx + 1) as nat) - line_start(
            rope_text(*r),
            line_idx as nat,
        ),
{
    r.line(line_idx).len_chars()
}

/// `Rope::line` and the `String` made of it: the text of a line with its
/// line break. `line` panics on a line that does not exist.
#[verifier::external_body]
pub(crate) fn rope_line_string(r: &ropey::Rope, line_idx: usize) -> (line: String)
    requires
        line_idx < line_count(rope_text(*r)),
    ensures
        line@ == rope_text(*r).subrange(
            line_start(rope_text(*r), line_idx as nat),
            line_start(rope_text(*r), (line_idx + 1) as nat),
        ),
{
    String::from(r.line(line_idx))
}

/// `Rope::insert_char`: the character is put in at the index. It panics on
/// an index past the end.
#[verifier::external_body]
pub(crate) fn rope_insert_char(r: &mut ropey::Rope, char_idx: usize, ch: char)
    requires
        char_idx <= rope_text(*old(r)).len(),
    ensures
        rope_text(*final(r)) == rope_text(*old(r)).insert(char_idx as int, ch),
{
    r.insert_char(char_idx, ch)
}

/// `Rope::insert`: the text is put in at the index. It panics on an index
/// past the end.
#[verifier::external_body]
pub(crate) fn rope_insert(r: &mut ropey::Rope, char_idx: usize, text: &str)
    requires
        char_idx <= rope_text(*old(r)).len(),
    ensures
        rope_text(*final(r)) == rope_text(*old(r)).subrange(0, char_idx as int) + text@
            + rope_text(*old(r)).subrange(char_idx as int, rope_text(*old(r)).len() as int),
{
    r.insert(char_idx, text)
}

/// `Rope::remove`: the characters from `start` up to `end` are taken out.
/// It panics if `start` is greater than `end` or `end` is past the end.
#[verifier::external_body]
pub(crate) fn rope_remove(r: &mut ropey::Rope, start: usize, end: usize)
    requires
        start <= end <= rope_text(*old(r)).len(),
    ensures
        rope_text(*final(r)) == rope_text(*old(r)).subrange(0, start as int) + rope_text(
            *old(r),
        ).subrange(end as int, rope_text(*old(r)).len() as int),
{
    r.remove(start..end)
}

/// `Rope::slice` and the `String` made of it: the characters from `start`
/// up to `end`. `slice` panics if `start` is greater than `end` or `end`
/// is past the end.
#[verifier::external_body]
pub(crate) fn rope_slice_string(r: &ropey::Rope, start: usize, end: usize) -> (text: String)
    requires
        start <= end <= rope_text(*r).len(),
    ensures
        text@ == rope_text(*r).subrange(start as int, end as int),
{
    String::from(r.slice(start..end))
}

/// `Rope::char`: the character at an index. It panics on an index at or
/// past the end.
#[verifier::external_body]
pub(crate) fn rope_char(r: &ropey::Rope, char_idx: usize) -> (c: char)
    requires
        char_idx < rope_text(*r).len(),
    ensures
        c == rope_text(*r)[char_idx as int],
{
    r.char(char_idx)
}

/// The `String` made of a rope: its whole text.
#[verifier::external_body]
pub(crate) fn rope_string(r: &ropey::Rope) -> (text: String)
    ensures
        text@ == rope_text(*r),
{
    String::from(r)
}

/// A line never starts behind the end of the text, nor before `from`.
pub proof fn lemma_line_start_from_bounds(text: Seq<char>, line: nat, from: int)
    requires
        0 <= from <= text.len(),
    ensures
        from <= line_start_from(text, line, from) <= text.len(),
    decreases text.len() - from,
{
    if from < text.len() && line > 0 {
        if ends_line_break(text, from) {
            lemma_line_start_from_bounds(text, (line - 1) as nat, from + 1);
        } else {
            lemma_line_start_from_bounds(text, line, from + 1);
        }
    }
}

/// A later line never starts before an earlier one.
pub proof fn lemma_line_start_from_monotonic(text: Seq<char>, line: nat, from: int)
    requires
        0 <= from <= text.len(),
    ensures
        line_start_from(text, line, from) <= line_start_from(text, line + 1, from),
    decreases text.len() - from,
{
    if from < text.len() {
        if line == 0 {
            lemma_line_start_from_bounds(text, 1, from);
        } else if ends_line_break(text, from) {
            lemma_line_start_from_monotonic(text, (line - 1) as nat, from + 1);
        } else {
            lemma_line_start_from_monotonic(text, line, from + 1);
        }
    }
}

/// Every line ends where the next one starts, within the text.
pub proof fn lemma_line_extent(text: Seq<char>, line: nat)
    ensures
        0 <= line_start(text, line) <= line_start(text, line + 1) <= text.len(),
{
    lemma_line_start_from_bounds(text, line, 0);
    lemma_line_start_from_bounds(text, line + 1, 0);
    lemma_line_start_from_monotonic(text, line, 0);
}

/// Counting line breaks further on never gives fewer.
pub proof fn lemma_line_breaks_monotonic(text: Seq<char>, a: int, b: int)
    requires
        a <= b,
    ensures
        line_breaks(text, a) <= line_breaks(text, b),
    decreases b - a,
{
    if a < b {
        lemma_line_breaks_monotonic(text, a, b - 1);
    }
}

/// If `k` line breaks end between `from` and `i`, the `k`-th line from
/// `from` on starts at or before `i`.
pub proof fn lemma_line_start_from_reaches(text: Seq<char>, from: int, i: int, k: nat)
    requires
        0 <= from <= i <= text.len(),
        line_breaks(text, i) == line_breaks(text, from) + k,
    ensures
        line_start_from(text, k, from) <= i,
    decreases text.len() - from,
{
    if from < i && k > 0 {
        if ends_line_break(text, from) {
            lemma_line_start_from_reaches(text, from + 1, i, (k - 1) as nat);
        } else {
            lemma_line_start_from_reaches(text, from + 1, i, k);
        }
    }
}

/// The line a character lies in starts at or before the character.
pub proof fn lemma_line_of_char_starts_before(text: Seq<char>, i: int)
    requires
        0 <= i <= text.len(),
    ensures
        line_start(text, line_breaks(text, i)) <= i,
        line_breaks(text, i) < line_count(text),
{
    lemma_line_breaks_monotonic(text, i, text.len() as int);
    lemma_line_start_from_reaches(text, 0, i, line_breaks(text, i));
}

} // verus!
