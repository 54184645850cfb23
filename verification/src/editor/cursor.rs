//! Cursor positions and selections in a document.

use vstd::prelude::*;

verus! {

/// A position in a document, with the column the user last asked for.
#[derive(Debug, Clone, Copy, PartialEq, Eq, Structural)]
pub struct Cursor {
    /// Line number (0-based)
    pub line: usize,
    /// Column number (0-based, in characters)
    pub col: usize,
    /// The "wanted" column - preserved when moving up/down through shorter lines
    pub wanted_col: usize,
}

/// The smaller of two lengths.
pub open spec fn spec_min(a: usize, b: usize) -> usize {
    if a <= b {
        a
    } else {
        b
    }
}

impl Cursor {
    /// The cursor at `(line, col)` that also wants to be in column `col`.
    pub open spec fn spec_at(line: usize, col: usize) -> Cursor {
        Cursor { line, col, wanted_col: col }
    }

    /// Whether this position comes before `other`, or is the same position.
    pub open spec fn at_or_before(self, other: Cursor) -> bool {
        self.line < other.line || (self.line == other.line && self.col <= other.col)
    }

    /// Whether this position comes strictly before `other`.
    pub open spec fn before(self, other: Cursor) -> bool {
        self.line < other.line || (self.line == other.line && self.col < other.col)
    }

    /// Whether the two cursors stand at the same position, whatever column
    /// each of them wants.
    pub open spec fn same_position(self, other: Cursor) -> bool {
        self.line == other.line && self.col == other.col
    }

    /// The cursor after one step right on a line of `line_len` characters
    /// in a document of `total_lines` lines: one column on, or to the start
    /// of the next line from the end of a line, or nowhere from the end of
    /// the document.
    pub open spec fn moved_right(self, line_len: usize, total_lines: usize) -> Cursor {
        if self.col < line_len {
            Self::spec_at(self.line, (self.col + 1) as usize)
        } else if self.line + 1 < total_lines {
            Self::spec_at((self.line + 1) as usize, 0)
        } else {
            self
        }
    }

    /// The cursor after one step left, where `prev_len` is the length of
    /// the line above.
    pub open spec fn moved_left(self, prev_len: usize) -> Cursor {
        if self.col > 0 {
            Self::spec_at(self.line, (self.col - 1) as usize)
        } else if self.line > 0 {
            Self::spec_at((self.line - 1) as usize, prev_len)
        } else {
            self
        }
    }

    /// The cursor after one step up, where `above_len` is the length of
    /// the line above: it goes to the wanted column, or to the end of the
    /// line if that is shorter.
    pub open spec fn moved_up(self, above_len: usize) -> Cursor {
        if self.line > 0 {
            Cursor {
                line: (self.line - 1) as usize,
                col: spec_min(self.wanted_col, above_len),
                wanted_col: self.wanted_col,
            }
        } else {
            self
        }
    }

    /// The cursor after one step down in a document of `total_lines`
    /// lines, where `below_len` is the length of the line below.
    pub open spec fn moved_down(self, total_lines: usize, below_len: usize) -> Cursor {
        if self.line + 1 < total_lines {
            Cursor {
                line: (self.line + 1) as usize,
                col: spec_min(self.wanted_col, below_len),
                wanted_col: self.wanted_col,
            }
        } else {
            self
        }
    }

    /// Create a new cursor at the origin
    pub fn new() -> (c: Cursor)
        ensures
            c == Self::spec_at(0, 0),
    {
        Cursor { line: 0, col: 0, wanted_col: 0 }
    }

    /// Create a cursor at a specific position
    pub fn at(line: usize, col: usize) -> (c: Cursor)
        ensures
            c == Self::spec_at(line, col),
    {
        Cursor { line, col, wanted_col: col }
    }

    /// Move the cursor to a new position
    pub fn move_to(&mut self, line: usize, col: usize)
        ensures
            *final(self) == Self::spec_at(line, col),
    {
        self.line = line;
        self.col = col;
        self.wanted_col = col;
    }

    /// Move right by one character
    pub fn move_right(&mut self, line_len: usize, total_lines: usize)
        ensures
            *final(self) == old(self).moved_right(line_len, total_lines),
    {
        if self.col < line_len {
            self.col += 1;
            self.wanted_col = self.col;
        } else if total_lines > 0 && self.line < total_lines - 1 {
            self.line += 1;
            self.col = 0;
            self.wanted_col = 0;
        }
    }

    /// Move left by one character. `prev_line_len` is asked for the length
    /// of the line above, and only when the cursor has to go there.
    pub fn move_left<F: Fn(usize) -> usize>(&mut self, prev_line_len: F)
        requires
            old(self).col == 0 && old(self).line > 0 ==> prev_line_len.requires(
                ((old(self).line - 1) as usize,),
            ),
        ensures
            old(self).col > 0 || old(self).line == 0 ==> *final(self) == old(self).moved_left(0),
            old(self).col == 0 && old(self).line > 0 ==> prev_line_len.ensures(
                ((old(self).line - 1) as usize,),
                final(self).col,
            ) && *final(self) == old(self).moved_left(final(self).col),
    {
        if self.col > 0 {
            self.col -= 1;
            self.wanted_col = self.col;
        } else if self.line > 0 {
            self.line -= 1;
            self.col = prev_line_len(self.line);
            self.wanted_col = self.col;
        }
    }

    /// Move up by one line. `line_len` is asked for the length of the line
    /// above, and only when there is one.
    pub fn move_up<F: Fn(usize) -> usize>(&mut self, line_len: F)
        requires
            old(self).line > 0 ==> line_len.requires(((old(self).line - 1) as usize,)),
        ensures
            old(self).line == 0 ==> *final(self) == *old(self),
            old(self).line > 0 ==> exists|len: usize|
                #![auto]
                line_len.ensures(((old(self).line - 1) as usize,), len) && *final(self) == old(self).moved_up(len),
    {
        if self.line > 0 {
            self.line -= 1;
            let len = line_len(self.line);
            self.col = if self.wanted_col <= len {
                self.wanted_col
            } else {
                len
            };
            assert(line_len.ensures(((old(self).line - 1) as usize,), len) && *self == old(self).moved_up(len));
        }
    }

    /// Move down by one line. `line_len` is asked for the length of the
    /// line below, and only when there is one.
    pub fn move_down<F: Fn(usize) -> usize>(&mut self, total_lines: usize, line_len: F)
        requires
            old(self).line + 1 < total_lines ==> line_len.requires(
                ((old(self).line + 1) as usize,),
            ),
        ensures
            old(self).line + 1 >= total_lines ==> *final(self) == *old(self),
            old(self).line + 1 < total_lines ==> exists|len: usize|
                #![auto]
                line_len.ensures(((old(self).line + 1) as usize,), len) && *final(self) == old(self).moved_down(total_lines, len),
    {
        if total_lines > 0 && self.line < total_lines - 1 {
            self.line += 1;
            let len = line_len(self.line);
            self.col = if self.wanted_col <= len {
                self.wanted_col
            } else {
                len
            };
            assert(line_len.ensures(((old(self).line + 1) as usize,), len) && *self == old(self).moved_down(total_lines, len));
        }
    }

    /// Move to the beginning of the current line
    pub fn move_to_line_start(&mut self)
        ensures
            *final(self) == Self::spec_at(old(self).line, 0),
    {
        self.col = 0;
        self.wanted_col = 0;
    }

    /// Move to the end of the current line
    pub fn move_to_line_end(&mut self, line_len: usize)
        ensures
            *final(self) == Self::spec_at(old(self).line, line_len),
    {
        self.col = line_len;
        self.wanted_col = self.col;
    }

    /// Move to the beginning of the document
    pub fn move_to_start(&mut self)
        ensures
            *final(self) == Self::spec_at(0, 0),
    {
        self.line = 0;
        self.col = 0;
        self.wanted_col = 0;
    }

    /// Move to the end of the document: the end of its last line, or of
    /// line 0 if it has no lines.
    pub fn move_to_end(&mut self, total_lines: usize, last_line_len: usize)
        ensures
            *final(self) == Self::spec_at(
                if total_lines == 0 {
                    0
                } else {
                    (total_lines - 1) as usize
                },
                last_line_len,
            ),
    {
        self.line = if total_lines == 0 {
            0
        } else {
            total_lines - 1
        };
        self.col = last_line_len;
        self.wanted_col = self.col;
    }
}

impl Default for Cursor {
    fn default() -> (c: Cursor)
        ensures
            c == Cursor::spec_at(0, 0),
    {
        Cursor::new()
    }
}

/// Represents a text selection
#[derive(Debug, Clone, Copy, PartialEq, Eq, Structural)]
pub struct Selection {
    /// Anchor position (where selection started)
    pub anchor: Cursor,
    /// Head position (where cursor currently is)
    pub head: Cursor,
}

impl Selection {
    /// Whether anchor and head stand at different positions.
    pub open spec fn spec_has_selection(self) -> bool {
        !self.anchor.same_position(self.head)
    }

    /// The end of the selection that comes first in the document; the
    /// anchor if both stand at the same position.
    pub open spec fn start(self) -> Cursor {
        if self.anchor.at_or_before(self.head) {
            self.anchor
        } else {
            self.head
        }
    }

    /// The end of the selection that comes last in the document.
    pub open spec fn end(self) -> Cursor {
        if self.anchor.at_or_before(self.head) {
            self.head
        } else {
            self.anchor
        }
    }

    /// Whether `(line, col)` lies in the selected text: at or after its
    /// start and strictly before its end.
    pub open spec fn spec_contains(self, line: usize, col: usize) -> bool {
        let p = Cursor::spec_at(line, col);
        self.start().at_or_before(p) && p.before(self.end())
    }

    /// Create a new selection with the same anchor and head (no selection)
    pub fn new(cursor: Cursor) -> (s: Selection)
        ensures
            s == (Selection { anchor: cursor, head: cursor }),
    {
        Selection { anchor: cursor, head: cursor }
    }

    /// Check if there is an actual selection (anchor != head)
    pub fn has_selection(&self) -> (r: bool)
        ensures
            r == self.spec_has_selection(),
    {
        self.anchor.line != self.head.line || self.anchor.col != self.head.col
    }

    /// Get the start and end of the selection (ordered)
    pub fn ordered(&self) -> (r: (Cursor, Cursor))
        ensures
            r == (self.start(), self.end()),
            r.0.at_or_before(r.1),
    {
        if self.anchor.line < self.head.line || (self.anchor.line == self.head.line
            && self.anchor.col <= self.head.col) {
            (self.anchor, self.head)
        } else {
            (self.head, self.anchor)
        }
    }

    /// Collapse the selection to just the cursor position
    pub fn collapse(&mut self)
        ensures
            *final(self) == (Selection { anchor: old(self).head, head: old(self).head }),
    {
        self.anchor = self.head;
    }

    /// Extend the selection to a new head position
    pub fn extend_to(&mut self, head: Cursor)
        ensures
            *final(self) == (Selection { anchor: old(self).anchor, head }),
    {
        self.head = head;
    }

    /// Check if a position is within the selection
    pub fn contains(&self, line: usize, col: usize) -> (r: bool)
        ensures
            r == self.spec_contains(line, col),
    {
        if !self.has_selection() {
            return false;
        }
        let (start, end) = self.ordered();

        if line < start.line || line > end.line {
            return false;
        }
        if line == start.line && line == end.line {
            return col >= start.col && col < end.col;
        }
        if line == start.line {
            return col >= start.col;
        }
        if line == end.line {
            return col < end.col;
        }
        true
    }
}

impl Default for Selection {
    fn default() -> (s: Selection)
        ensures
            s == (Selection { anchor: Cursor::spec_at(0, 0), head: Cursor::spec_at(0, 0) }),
    {
        Selection::new(Cursor::new())
    }
}

/// An empty selection contains no position.
pub proof fn lemma_collapsed_selection_is_empty(s: Selection, line: usize, col: usize)
    requires
        !s.spec_has_selection(),
    ensures
        !s.spec_contains(line, col),
{
}

} // verus!
