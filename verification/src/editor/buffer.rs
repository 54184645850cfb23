//! A text buffer: a rope of characters addressed by character index or by
//! line and column.

use vstd::prelude::*;
use crate::editor::rope::{
    lemma_line_extent, lemma_line_of_char_starts_before, line_breaks, line_count,
    line_start, rope_char, rope_char_to_line, rope_from_str, rope_insert, rope_insert_char,
    rope_len_chars, rope_len_lines, rope_line_len_chars, rope_line_string, rope_line_to_char,
    rope_new, rope_remove, rope_slice_string, rope_string, rope_text,
};

verus! {

/// A text buffer backed by a rope data structure
#[derive(Debug)]
pub struct Buffer {
    /// The rope containing the text
    pub rope: ropey::Rope,
}

/// `n`, but no more than `limit`.
pub open spec fn at_most(n: int, limit: int) -> int {
    if n <= limit {
        n
    } else {
        limit
    }
}

/// The length of line `line` of a text with its line break, or 0 if the
/// text has no such line.
pub open spec fn full_line_len(text: Seq<char>, line: int) -> int {
    if 0 <= line < line_count(text) {
        line_start(text, (line + 1) as nat) - line_start(text, line as nat)
    } else {
        0
    }
}

/// The length of line `line` as the editor counts it: every line but the
/// last is counted without the final character of its line break.
pub open spec fn text_line_len(text: Seq<char>, line: int) -> int {
    let len = full_line_len(text, line);
    if len > 0 && line + 1 < line_count(text) {
        len - 1
    } else {
        len
    }
}

/// The character index of a position given by line and column: the start
/// of the line plus the column, the column held within the line; the end
/// of the text for a line that does not exist.
pub open spec fn text_index(text: Seq<char>, line: int, col: int) -> int {
    if line >= line_count(text) {
        text.len() as int
    } else {
        line_start(text, line as nat) + at_most(col, text_line_len(text, line))
    }
}

/// The line and column of a character index, the index held within the
/// text.
pub open spec fn text_position(text: Seq<char>, char_idx: int) -> (int, int) {
    let idx = at_most(char_idx, text.len() as int);
    let line = line_breaks(text, idx);
    (line as int, idx - line_start(text, line))
}

/// `text` without the characters from `start` up to `end`, both held
/// within the text; unchanged if that range is empty.
pub open spec fn text_without(text: Seq<char>, start: int, end: int) -> Seq<char> {
    let s = at_most(start, text.len() as int);
    let e = at_most(end, text.len() as int);
    if s < e {
        text.subrange(0, s) + text.subrange(e, text.len() as int)
    } else {
        text
    }
}

/// The characters of `text` from `start` up to `end`, both held within
/// the text; nothing if that range is empty.
pub open spec fn text_between(text: Seq<char>, start: int, end: int) -> Seq<char> {
    let s = at_most(start, text.len() as int);
    let e = at_most(end, text.len() as int);
    if s < e {
        text.subrange(s, e)
    } else {
        Seq::empty()
    }
}

impl View for Buffer {
    type V = Seq<char>;

    open spec fn view(&self) -> Seq<char> {
        rope_text(self.rope)
    }
}

impl Buffer {
    /// Create a new empty buffer
    pub fn new() -> (b: Buffer)
        ensures
            b@ == Seq::<char>::empty(),
    {
        Buffer { rope: rope_new() }
    }

    /// Create a buffer from a string
    pub fn from_str(text: &str) -> (b: Buffer)
        ensures
            b@ == text@,
    {
        Buffer { rope: rope_from_str(text) }
    }

    /// Get the total number of lines
    pub fn len_lines(&self) -> (n: usize)
        ensures
            n == line_count(self@),
            n >= 1,
    {
        rope_len_lines(&self.rope)
    }

    /// Get the total number of characters
    pub fn len_chars(&self) -> (n: usize)
        ensures
            n == self@.len(),
    {
        rope_len_chars(&self.rope)
    }

    /// Check if the buffer is empty
    pub fn is_empty(&self) -> (empty: bool)
        ensures
            empty == (self@.len() == 0),
    {
        rope_len_chars(&self.rope) == 0
    }

    /// Get a line by index (0-based), with its line break
    pub fn line(&self, line_idx: usize) -> (line: Option<String>)
        ensures
            line.is_some() == (line_idx < line_count(self@)),
            line matches Some(s) ==> s@ == self@.subrange(
                line_start(self@, line_idx as nat),
                line_start(self@, (line_idx + 1) as nat),
            ),
    {
        if line_idx < rope_len_lines(&self.rope) {
            Some(rope_line_string(&self.rope, line_idx))
        } else {
            None
        }
    }

    /// Get the length of a line (in characters, excluding newline)
    pub fn line_len(&self, line_idx: usize) -> (len: usize)
        ensures
            len == text_line_len(self@, line_idx as int),
    {
        let lines = rope_len_lines(&self.rope);
        if line_idx < lines {
            let len = rope_line_len_chars(&self.rope, line_idx);
            if len > 0 && line_idx < lines - 1 {
                len - 1
            } else {
                len
            }
        } else {
            0
        }
    }

    /// Convert a (line, column) position to a character index
    pub fn line_col_to_char(&self, line: usize, col: usize) -> (idx: usize)
        ensures
            idx == text_index(self@, line as int, col as int),
            idx <= self@.len(),
    {
        let total = self.len_chars();
        if line >= self.len_lines() {
            return total;
        }
        let line_start = rope_line_to_char(&self.rope, line);
        let line_len = self.line_len(line);
        let col = if col <= line_len {
            col
        } else {
            line_len
        };
        proof {
            lemma_line_extent(self@, line as nat);
        }
        line_start + col
    }

    /// Convert a character index to (line, column)
    pub fn char_to_line_col(&self, char_idx: usize) -> (pos: (usize, usize))
        ensures
            (pos.0 as int, pos.1 as int) == text_position(self@, char_idx as int),
            pos.0 < line_count(self@),
    {
        let len = self.len_chars();
        let char_idx = if char_idx <= len {
            char_idx
        } else {
            len
        };
        let line = rope_char_to_line(&self.rope, char_idx);
        proof {
            lemma_line_of_char_starts_before(self@, char_idx as int);
        }
        let line_start = rope_line_to_char(&self.rope, line);
        let col = char_idx - line_start;
        (line, col)
    }

    /// Insert a character at the given character index, or at the end if
    /// the index lies behind it
    pub fn insert_char(&mut self, char_idx: usize, ch: char)
        ensures
            final(self)@ == old(self)@.insert(at_most(char_idx as int, old(self)@.len() as int), ch),
    {
        let len = self.len_chars();
        let idx = if char_idx <= len {
            char_idx
        } else {
            len
        };
        rope_insert_char(&mut self.rope, idx, ch);
    }

    /// Insert a string at the given character index, or at the end if the
    /// index lies behind it
    pub fn insert_str(&mut self, char_idx: usize, text: &str)
        ensures
            ({
                let idx = at_most(char_idx as int, old(self)@.len() as int);
                final(self)@ == old(self)@.subrange(0, idx) + text@ + old(self)@.subrange(
                    idx,
                    old(self)@.len() as int,
                )
            }),
    {
        let len = self.len_chars();
        let idx = if char_idx <= len {
            char_idx
        } else {
            len
        };
        rope_insert(&mut self.rope, idx, text);
    }

    /// Delete the character at the given character index, if there is one
    pub fn delete_char(&mut self, char_idx: usize)
        ensures
            char_idx < old(self)@.len() ==> final(self)@ == old(self)@.remove(char_idx as int),
            char_idx >= old(self)@.len() ==> final(self)@ == old(self)@,
    {
        if char_idx < self.len_chars() {
            rope_remove(&mut self.rope, char_idx, char_idx + 1);
        }
    }

    /// Delete a range of characters
    pub fn delete_range(&mut self, start: usize, end: usize)
        ensures
            final(self)@ == text_without(old(self)@, start as int, end as int),
    {
        let len = self.len_chars();
        let start = if start <= len {
            start
        } else {
            len
        };
        let end = if end <= len {
            end
        } else {
            len
        };
        if start < end {
            rope_remove(&mut self.rope, start, end);
        }
    }

    /// Get a slice of the buffer as a string
    pub fn slice_to_string(&self, start: usize, end: usize) -> (text: String)
        ensures
            text@ == text_between(self@, start as int, end as int),
    {
        let len = self.len_chars();
        let start = if start <= len {
            start
        } else {
            len
        };
        let end = if end <= len {
            end
        } else {
            len
        };
        if start < end {
            rope_slice_string(&self.rope, start, end)
        } else {
            String::new()
        }
    }

    /// Get the character at a given index
    pub fn char_at(&self, char_idx: usize) -> (c: Option<char>)
        ensures
            c == if char_idx < self@.len() {
                Some(self@[char_idx as int])
            } else {
                None
            },
    {
        if char_idx < self.len_chars() {
            Some(rope_char(&self.rope, char_idx))
        } else {
            None
        }
    }

    /// Get the entire buffer as a string
    pub fn to_string(&self) -> (text: String)
        ensures
            text@ == self@,
    {
        rope_string(&self.rope)
    }

    /// Get a reference to the underlying rope
    pub fn rope(&self) -> (rope: &ropey::Rope)
        ensures
            *rope == self.rope,
    {
        &self.rope
    }
}

impl Clone for Buffer {
    fn clone(&self) -> (copy: Buffer)
        ensures
            copy@ == self@,
    {
        Buffer { rope: self.rope.clone() }
    }
}

impl Default for Buffer {
    fn default() -> (b: Buffer)
        ensures
            b@ == Seq::<char>::empty(),
    {
        Buffer::new()
    }
}

} // verus!
