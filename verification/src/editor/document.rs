//! Documents: a text buffer with its cursor, selection and metadata.
//!
//! A document never touches the disk. Whoever owns it reads and writes the
//! file and tells the document how that went.

use vstd::prelude::*;
use crate::editor::buffer::{at_most, text_between, text_index, text_line_len, text_position, text_without, Buffer};
use crate::editor::cursor::{spec_min, Cursor, Selection};
use crate::editor::filetype::{filetype_for_extension, filetype_name};
use crate::editor::rope::line_count;
use crate::text::lowercase;

verus! {

/// Line ending style
#[derive(Debug, Clone, Copy, PartialEq, Eq, Structural)]
pub enum LineEnding {
    /// Unix: `\n`
    Lf,
    /// Windows: `\r\n`
    CrLf,
    /// Old Mac: `\r`
    Cr,
}

/// Whether a carriage return directly followed by a line feed occurs in `text`.
pub open spec fn has_crlf(text: Seq<char>) -> bool {
    exists|i: int| 0 <= i && i + 1 < text.len() && #[trigger] text[i] == '\r' && text[i + 1] == '\n'
}

/// Whether a carriage return occurs in `text`.
pub open spec fn has_cr(text: Seq<char>) -> bool {
    exists|i: int| 0 <= i < text.len() && #[trigger] text[i] == '\r'
}

impl LineEnding {
    /// The characters that end a line in this style.
    pub open spec fn chars(self) -> Seq<char> {
        match self {
            LineEnding::Lf => seq!['\n'],
            LineEnding::CrLf => seq!['\r', '\n'],
            LineEnding::Cr => seq!['\r'],
        }
    }

    /// The short name of this style.
    pub open spec fn name(self) -> Seq<char> {
        match self {
            LineEnding::Lf => seq!['L', 'F'],
            LineEnding::CrLf => seq!['C', 'R', 'L', 'F'],
            LineEnding::Cr => seq!['C', 'R'],
        }
    }

    /// The style a text is written in: Windows if it holds a `\r\n`
    /// anywhere, else old Mac if it holds a `\r`, else Unix.
    pub open spec fn spec_detect(text: Seq<char>) -> LineEnding {
        if has_crlf(text) {
            LineEnding::CrLf
        } else if has_cr(text) {
            LineEnding::Cr
        } else {
            LineEnding::Lf
        }
    }

    pub fn as_str(&self) -> (s: &'static str)
        ensures
            s@ == self.chars(),
    {
        proof {
            reveal_strlit("\n");
            reveal_strlit("\r\n");
            reveal_strlit("\r");
        }
        match self {
            LineEnding::Lf => {
                "\n"
            },
            LineEnding::CrLf => {
                "\r\n"
            },
            LineEnding::Cr => {
                "\r"
            },
        }
    }

    pub fn display_name(&self) -> (s: &'static str)
        ensures
            s@ == self.name(),
    {
        proof {
            reveal_strlit("LF");
            reveal_strlit("CRLF");
            reveal_strlit("CR");
        }
        match self {
            LineEnding::Lf => {
                "LF"
            },
            LineEnding::CrLf => {
                "CRLF"
            },
            LineEnding::Cr => {
                "CR"
            },
        }
    }

    /// Detect line ending from text
    pub fn detect(text: &str) -> (r: LineEnding)
        ensures
            r == Self::spec_detect(text@),
    {
        let mut seen_cr = false;
        let mut prev_cr = false;
        for c in it: text.chars()
            invariant
                it.seq() == text@,
                seen_cr ==> exists|j: int| 0 <= j < it.index() && #[trigger] text@[j] == '\r',
                !seen_cr ==> forall|j: int| 0 <= j < it.index() ==> #[trigger] text@[j] != '\r',
                prev_cr == (it.index() > 0 && text@[it.index() - 1] == '\r'),
                forall|j: int|
                    0 <= j && j + 1 < it.index() ==> !(#[trigger] text@[j] == '\r' && text@[j + 1]
                        == '\n'),
        {
            if c == '\n' && prev_cr {
                return LineEnding::CrLf;
            }
            prev_cr = c == '\r';
            if prev_cr {
                seen_cr = true;
            }
        }
        if seen_cr {
            LineEnding::Cr
        } else {
            LineEnding::Lf
        }
    }
}

impl Default for LineEnding {
    fn default() -> (r: LineEnding)
        ensures
            r == LineEnding::Lf,
    {
        LineEnding::Lf
    }
}

/// Why a document could not be saved.
#[derive(Debug, Clone, Copy, PartialEq, Eq, Structural)]
pub enum SaveError {
    /// The document has no file path yet.
    NoPath,
    /// Writing the file failed.
    WriteFailed,
}

/// A document represents an open file with its buffer, cursor, and metadata
#[derive(Debug)]
pub struct Document {
    /// The text buffer
    pub buffer: Buffer,
    /// Current cursor position
    pub cursor: Cursor,
    /// Current selection (may be collapsed to cursor)
    pub selection: Selection,
    /// File path (None for new untitled documents)
    pub path: Option<String>,
    /// Whether the document has unsaved changes
    pub modified: bool,
    /// Line ending style
    pub line_ending: LineEnding,
    /// Character encoding (we only support UTF-8 for now)
    pub encoding: String,
    /// Detected or set filetype
    pub filetype: String,
    /// Vertical scroll offset (first visible line)
    pub scroll_y: usize,
    /// Horizontal scroll offset (first visible column)
    pub scroll_x: usize,
    /// Insert mode (true) or overwrite mode (false)
    pub insert_mode: bool,
}

/// The mathematical content of a document.
pub struct DocumentView {
    pub text: Seq<char>,
    pub cursor: Cursor,
    pub selection: Selection,
    pub path: Option<Seq<char>>,
    pub modified: bool,
    pub line_ending: LineEnding,
    pub encoding: Seq<char>,
    pub filetype: Seq<char>,
    pub scroll_y: usize,
    pub scroll_x: usize,
    pub insert_mode: bool,
}

/// The title of a document that has no file name.
pub open spec fn untitled() -> Seq<char> {
    "untitled"@
}

/// The first visible row or column after scrolling just far enough to
/// bring `position` into a viewport of `visible` rows or columns that
/// starts at `scroll`. A viewport without rows or columns cannot show the
/// position and ends up just behind it.
pub open spec fn scrolled_to_show(position: usize, scroll: usize, visible: usize) -> usize {
    if position < scroll {
        position
    } else if position >= scroll + visible {
        at_most(position - visible + 1, usize::MAX as int) as usize
    } else {
        scroll
    }
}

impl DocumentView {
    /// A new document holding `text`, with the cursor at the origin.
    pub open spec fn fresh(text: Seq<char>) -> DocumentView {
        DocumentView {
            text,
            cursor: Cursor::spec_at(0, 0),
            selection: Selection { anchor: Cursor::spec_at(0, 0), head: Cursor::spec_at(0, 0) },
            path: None,
            modified: false,
            line_ending: LineEnding::Lf,
            encoding: "UTF-8"@,
            filetype: "Plain Text"@,
            scroll_y: 0,
            scroll_x: 0,
            insert_mode: true,
        }
    }

    /// The number of lines.
    pub open spec fn lines(self) -> nat {
        line_count(self.text)
    }

    /// The index of the last line.
    pub open spec fn last_line(self) -> int {
        self.lines() - 1
    }

    /// The length of a line as the editor counts it.
    pub open spec fn line_len(self, line: int) -> int {
        text_line_len(self.text, line)
    }

    /// The character index of a cursor.
    pub open spec fn index_of(self, c: Cursor) -> int {
        text_index(self.text, c.line as int, c.col as int)
    }

    /// The document with the cursor at `cursor`: the selection follows
    /// with its head if it is being extended, and collapses to the cursor
    /// otherwise.
    pub open spec fn with_cursor(self, cursor: Cursor, extend_selection: bool) -> DocumentView {
        DocumentView {
            cursor,
            selection: if extend_selection {
                Selection { anchor: self.selection.anchor, head: cursor }
            } else {
                Selection { anchor: cursor, head: cursor }
            },
            ..self
        }
    }

    /// The document after an edit that left the text `text` and the
    /// cursor at `cursor`: the selection is collapsed and the document
    /// counts as modified.
    pub open spec fn edited(self, text: Seq<char>, cursor: Cursor) -> DocumentView {
        DocumentView {
            text,
            cursor,
            selection: Selection { anchor: cursor, head: cursor },
            modified: true,
            ..self
        }
    }

    /// The document after `delete_selection`: the selected text is gone
    /// and the cursor stands where it began.
    pub open spec fn delete_selection(self) -> DocumentView {
        if self.selection.spec_has_selection() {
            let start = self.selection.start();
            let end = self.selection.end();
            self.edited(text_without(self.text, self.index_of(start), self.index_of(end)), start)
        } else {
            self
        }
    }

    /// The selected text.
    pub open spec fn selected_text(self) -> Seq<char> {
        if self.selection.spec_has_selection() {
            text_between(
                self.text,
                self.index_of(self.selection.start()),
                self.index_of(self.selection.end()),
            )
        } else {
            Seq::empty()
        }
    }

    /// The document after `insert_char(ch)`: a selection is deleted first;
    /// then the character goes in at the cursor, in overwrite mode in
    /// place of the character there unless that is a line feed; the
    /// cursor moves behind it, to the start of the next line for a line
    /// feed.
    pub open spec fn insert_char(self, ch: char) -> DocumentView {
        let d = self.delete_selection();
        let idx = d.index_of(d.cursor);
        let kept = if !d.insert_mode && idx < d.text.len() && d.text[idx] != '\n' {
            d.text.remove(idx)
        } else {
            d.text
        };
        let cursor = if ch == '\n' {
            Cursor::spec_at((d.cursor.line + 1) as usize, 0)
        } else {
            Cursor::spec_at(d.cursor.line, (d.cursor.col + 1) as usize)
        };
        d.edited(kept.insert(idx, ch), cursor)
    }

    /// The cursor at the position of a character index.
    pub open spec fn cursor_at_index(text: Seq<char>, idx: int) -> Cursor {
        let (line, col) = text_position(text, idx);
        Cursor::spec_at(line as usize, col as usize)
    }

    /// The document after `insert_str(text)`: a selection is deleted
    /// first; then the text goes in at the cursor, and the cursor moves
    /// behind it.
    pub open spec fn insert_str(self, inserted: Seq<char>) -> DocumentView {
        let d = self.delete_selection();
        let idx = d.index_of(d.cursor);
        let text = d.text.subrange(0, idx) + inserted + d.text.subrange(idx, d.text.len() as int);
        d.edited(text, Self::cursor_at_index(text, idx + inserted.len()))
    }

    /// The document after `backspace`: a selection is deleted; without
    /// one, the character before the cursor, if there is one.
    pub open spec fn backspace(self) -> DocumentView {
        if self.selection.spec_has_selection() {
            self.delete_selection()
        } else if self.cursor.line == 0 && self.cursor.col == 0 {
            self
        } else {
            let idx = self.index_of(self.cursor);
            if idx > 0 {
                let text = self.text.remove(idx - 1);
                self.edited(text, Self::cursor_at_index(text, idx - 1))
            } else {
                self
            }
        }
    }

    /// The document after `delete`: a selection is deleted; without one,
    /// the character at the cursor, if there is one. The cursor and the
    /// collapsed selection stay.
    pub open spec fn delete(self) -> DocumentView {
        if self.selection.spec_has_selection() {
            self.delete_selection()
        } else {
            let idx = self.index_of(self.cursor);
            if idx < self.text.len() {
                DocumentView { text: self.text.remove(idx), modified: true, ..self }
            } else {
                self
            }
        }
    }

    /// The cursor at the end of the document.
    pub open spec fn end_cursor(self) -> Cursor {
        Cursor::spec_at(self.last_line() as usize, self.line_len(self.last_line()) as usize)
    }

    /// The cursor on `line`, in the column the cursor wants or at the end
    /// of the line if that is shorter.
    pub open spec fn cursor_on_line(self, line: usize) -> Cursor {
        Cursor {
            line,
            col: spec_min(self.cursor.wanted_col, self.line_len(line as int) as usize),
            wanted_col: self.cursor.wanted_col,
        }
    }

    /// The document after `move_to(line, col, ..)`: the cursor goes to the
    /// position, the line held within the document and the column within
    /// the line.
    pub open spec fn move_to(self, line: usize, col: usize, extend_selection: bool) -> DocumentView {
        let target = at_most(line as int, self.last_line());
        self.with_cursor(
            Cursor::spec_at(target as usize, at_most(col as int, self.line_len(target)) as usize),
            extend_selection,
        )
    }

    /// The document with the stretch from `start_col` to `end_col` of
    /// line `line` selected: the anchor stands where `move_to` puts the
    /// cursor for the start, the cursor and the head in column `end_col`
    /// of the same line.
    pub open spec fn select_stretch(self, line: usize, start_col: usize, end_col: usize)
        -> DocumentView {
        let d = self.move_to(line, start_col, false);
        let head = Cursor { col: end_col, ..d.cursor };
        DocumentView { cursor: head, selection: Selection { anchor: d.cursor, head }, ..d }
    }

    /// The document with the stretch from `start_col` to `end_col` of
    /// line `line` replaced by `text`.
    pub open spec fn replace_stretch(
        self,
        line: usize,
        start_col: usize,
        end_col: usize,
        text: Seq<char>,
    ) -> DocumentView {
        self.select_stretch(line, start_col, end_col).delete_selection().insert_str(text)
    }

    /// The document after `ensure_cursor_visible`.
    pub open spec fn ensure_cursor_visible(self, visible_lines: usize, visible_cols: usize)
        -> DocumentView {
        DocumentView {
            scroll_y: scrolled_to_show(self.cursor.line, self.scroll_y, visible_lines),
            scroll_x: scrolled_to_show(self.cursor.col, self.scroll_x, visible_cols),
            ..self
        }
    }
}

/// The text of an optional string.
pub open spec fn option_text(s: Option<String>) -> Option<Seq<char>> {
    match s {
        Some(t) => Some(t@),
        None => None,
    }
}

impl View for Document {
    type V = DocumentView;

    open spec fn view(&self) -> DocumentView {
        DocumentView {
            text: self.buffer@,
            cursor: self.cursor,
            selection: self.selection,
            path: option_text(self.path),
            modified: self.modified,
            line_ending: self.line_ending,
            encoding: self.encoding@,
            filetype: self.filetype@,
            scroll_y: self.scroll_y,
            scroll_x: self.scroll_x,
            insert_mode: self.insert_mode,
        }
    }
}

/// The last component of a path, as `std::path::Path::file_name` gives it
/// on the platform the program is built for; none for a path that ends in
/// no name.
pub uninterp spec fn file_name_of(path: Seq<char>) -> Option<Seq<char>>;

/// The extension of the last component of a path, without its dot, as
/// `std::path::Path::extension` gives it on the platform the program is
/// built for; none for a path whose last component has none.
pub uninterp spec fn extension_of(path: Seq<char>) -> Option<Seq<char>>;

/// `std::path::Path::file_name`, as text: the last component of a path, if
/// it has one. What counts as a component is for the platform to say and
/// depends on the text alone, so the result is named and nothing more is
/// claimed of it.
#[verifier::external_body]
fn path_file_name(path: &str) -> (name: Option<String>)
    ensures
        name.is_some() == file_name_of(path@).is_some(),
        name matches Some(n) ==> file_name_of(path@) == Some(n@),
{
    std::path::Path::new(path).file_name().and_then(|n| n.to_str()).map(|n| n.to_string())
}

/// `std::path::Path::extension`, as text: the extension of the last
/// component of a path, if it has one. What counts as a component is for
/// the platform to say and depends on the text alone, so the result is
/// named and nothing more is claimed of it.
#[verifier::external_body]
fn path_extension(path: &str) -> (ext: Option<String>)
    ensures
        ext.is_some() == extension_of(path@).is_some(),
        ext matches Some(e) ==> extension_of(path@) == Some(e@),
{
    std::path::Path::new(path).extension().and_then(|e| e.to_str()).map(|e| e.to_string())
}

/// The title of a document whose path has the given file name, or none.
pub fn title_for(file_name: Option<String>) -> (title: String)
    ensures
        title@ == match file_name {
            Some(name) => name@,
            None => untitled(),
        },
{
    match file_name {
        Some(name) => name,
        None => "untitled".to_string(),
    }
}

/// The name of the file type of a file with the given extension, or with
/// none: extensions are told apart without regard to case.
pub open spec fn filetype_of_extension(extension: Option<Seq<char>>) -> Seq<char> {
    match extension {
        Some(ext) => filetype_name(lowercase(ext)),
        None => filetype_name(Seq::empty()),
    }
}

/// The name of the file type of the file at a path: that of its extension.
pub open spec fn filetype_of_path(path: Seq<char>) -> Seq<char> {
    filetype_of_extension(extension_of(path))
}

/// The title of a document with the given path, or with none: the last
/// component of the path, if it has one.
pub open spec fn title_of(path: Option<Seq<char>>) -> Seq<char> {
    match path {
        Some(p) => match file_name_of(p) {
            Some(name) => name,
            None => untitled(),
        },
        None => untitled(),
    }
}

/// Detect filetype from the file extension of a path. The extension is
/// what the platform takes it to be.
pub fn detect_filetype(path: &str) -> (name: String)
    ensures
        name@ == filetype_of_path(path@),
{
    let ext = path_extension(path);
    match ext {
        Some(e) => filetype_for_extension(Some(e.as_str())),
        None => filetype_for_extension(None),
    }
}

impl Document {
    /// Create a new empty document
    pub fn new() -> (d: Document)
        ensures
            d@ == DocumentView::fresh(Seq::empty()),
    {
        Document {
            buffer: Buffer::new(),
            cursor: Cursor::new(),
            selection: Selection::new(Cursor::new()),
            path: None,
            modified: false,
            line_ending: LineEnding::Lf,
            encoding: "UTF-8".to_string(),
            filetype: "Plain Text".to_string(),
            scroll_y: 0,
            scroll_x: 0,
            insert_mode: true,
        }
    }

    /// Create a document from a string (for new unsaved documents)
    pub fn from_str(text: &str) -> (d: Document)
        ensures
            d@ == (DocumentView {
                modified: true,
                line_ending: LineEnding::spec_detect(text@),
                ..DocumentView::fresh(text@)
            }),
    {
        let line_ending = LineEnding::detect(text);
        Document {
            buffer: Buffer::from_str(text),
            cursor: Cursor::new(),
            selection: Selection::new(Cursor::new()),
            path: None,
            modified: true,
            line_ending,
            encoding: "UTF-8".to_string(),
            filetype: "Plain Text".to_string(),
            scroll_y: 0,
            scroll_x: 0,
            insert_mode: true,
        }
    }

    /// Makes the document for a file that was read: `text` is what the file
    /// at `path` held.
    pub fn open(path: String, text: &str) -> (d: Document)
        ensures
            d@ == (DocumentView {
                path: Some(path@),
                line_ending: LineEnding::spec_detect(text@),
                filetype: filetype_of_path(path@),
                ..DocumentView::fresh(text@)
            }),
    {
        let line_ending = LineEnding::detect(text);
        let filetype = detect_filetype(path.as_str());
        Document {
            buffer: Buffer::from_str(text),
            cursor: Cursor::new(),
            selection: Selection::new(Cursor::new()),
            path: Some(path),
            modified: false,
            line_ending,
            encoding: "UTF-8".to_string(),
            filetype,
            scroll_y: 0,
            scroll_x: 0,
            insert_mode: true,
        }
    }

    /// Records the outcome of saving the document to its file path, where
    /// `written` says whether writing the file succeeded. A document
    /// without a path cannot be saved, and only a successful save clears
    /// the modified mark.
    pub fn save(&mut self, written: bool) -> (r: Result<(), SaveError>)
        ensures
            old(self).path.is_none() ==> r == Err::<(), SaveError>(SaveError::NoPath),
            old(self).path.is_some() && !written ==> r == Err::<(), SaveError>(
                SaveError::WriteFailed,
            ),
            old(self).path.is_some() && written ==> r.is_ok(),
            r.is_ok() ==> final(self)@ == (DocumentView { modified: false, ..old(self)@ }),
            r.is_err() ==> *final(self) == *old(self),
    {
        if self.path.is_none() {
            return Err(SaveError::NoPath);
        }
        if !written {
            return Err(SaveError::WriteFailed);
        }
        self.modified = false;
        Ok(())
    }

    /// Records the outcome of saving the document to a new path, where
    /// `written` says whether writing the file succeeded. Only then does
    /// the document take the path, and the file type that goes with it.
    pub fn save_as(&mut self, path: String, written: bool) -> (r: Result<(), SaveError>)
        ensures
            r.is_ok() == written,
            r matches Err(e) ==> e == SaveError::WriteFailed && *final(self) == *old(self),
            r.is_ok() ==> final(self)@ == (DocumentView {
                path: Some(path@),
                modified: false,
                filetype: filetype_of_path(path@),
                ..old(self)@
            }),
    {
        if !written {
            return Err(SaveError::WriteFailed);
        }
        self.filetype = detect_filetype(path.as_str());
        self.path = Some(path);
        self.modified = false;
        Ok(())
    }

    /// Get the document title (filename or "untitled")
    pub fn title(&self) -> (title: String)
        ensures
            title@ == title_of(self@.path),
    {
        match &self.path {
            Some(path) => title_for(path_file_name(path.as_str())),
            None => title_for(None),
        }
    }

    /// Get the number of lines
    pub fn line_count(&self) -> (n: usize)
        ensures
            n == self@.lines(),
            n >= 1,
    {
        self.buffer.len_lines()
    }

    /// Get the length of a specific line
    pub fn line_len(&self, line: usize) -> (len: usize)
        ensures
            len == self@.line_len(line as int),
    {
        self.buffer.line_len(line)
    }

    /// Puts the cursor at `cursor` and lets the selection follow.
    fn place_cursor(&mut self, cursor: Cursor, extend_selection: bool)
        ensures
            final(self)@ == old(self)@.with_cursor(cursor, extend_selection),
            final(self).buffer == old(self).buffer,
    {
        self.cursor = cursor;
        if extend_selection {
            self.selection.head = self.cursor;
        } else {
            self.selection = Selection::new(self.cursor);
        }
    }

    /// Insert a character at the cursor position
    pub fn insert_char(&mut self, ch: char)
        requires
            old(self)@.delete_selection().cursor.line < usize::MAX,
            old(self)@.delete_selection().cursor.col < usize::MAX,
        ensures
            final(self)@ == old(self)@.insert_char(ch),
    {
        if self.selection.has_selection() {
            self.delete_selection();
        }
        let char_idx = self.buffer.line_col_to_char(self.cursor.line, self.cursor.col);
        if self.insert_mode {
            self.buffer.insert_char(char_idx, ch);
        } else {
            if char_idx < self.buffer.len_chars() {
                let current = self.buffer.char_at(char_idx);
                let is_line_feed = match current {
                    Some(c) => c == '\n',
                    None => false,
                };
                if !is_line_feed {
                    self.buffer.delete_char(char_idx);
                }
            }
            self.buffer.insert_char(char_idx, ch);
        }
        if ch == '\n' {
            self.cursor.line += 1;
            self.cursor.col = 0;
            self.cursor.wanted_col = 0;
        } else {
            self.cursor.col += 1;
            self.cursor.wanted_col = self.cursor.col;
        }
        self.selection = Selection::new(self.cursor);
        self.modified = true;
    }

    /// Insert a string at the cursor position
    pub fn insert_str(&mut self, text: &str)
        ensures
            final(self)@ == old(self)@.insert_str(text@),
    {
        if self.selection.has_selection() {
            self.delete_selection();
        }
        let char_idx = self.buffer.line_col_to_char(self.cursor.line, self.cursor.col);
        self.buffer.insert_str(char_idx, text);
        let inserted = text.unicode_len();
        // Reading the length tells that the longer text fits a machine word.
        let total = self.buffer.len_chars();
        let new_idx = char_idx + inserted;
        let (line, col) = self.buffer.char_to_line_col(new_idx);
        self.cursor.line = line;
        self.cursor.col = col;
        self.cursor.wanted_col = col;
        self.selection = Selection::new(self.cursor);
        self.modified = true;
    }

    /// Delete the character before the cursor (backspace)
    pub fn backspace(&mut self)
        ensures
            final(self)@ == old(self)@.backspace(),
    {
        if self.selection.has_selection() {
            self.delete_selection();
            return ;
        }
        if self.cursor.line == 0 && self.cursor.col == 0 {
            return ;
        }
        let char_idx = self.buffer.line_col_to_char(self.cursor.line, self.cursor.col);
        if char_idx > 0 {
            self.buffer.delete_char(char_idx - 1);
            let (line, col) = self.buffer.char_to_line_col(char_idx - 1);
            self.cursor.line = line;
            self.cursor.col = col;
            self.cursor.wanted_col = col;
            self.selection = Selection::new(self.cursor);
            self.modified = true;
        }
    }

    /// Delete the character at the cursor (delete key)
    pub fn delete(&mut self)
        ensures
            final(self)@ == old(self)@.delete(),
    {
        if self.selection.has_selection() {
            self.delete_selection();
            return ;
        }
        let char_idx = self.buffer.line_col_to_char(self.cursor.line, self.cursor.col);
        if char_idx < self.buffer.len_chars() {
            self.buffer.delete_char(char_idx);
            self.modified = true;
        }
    }

    /// Delete the current selection
    pub fn delete_selection(&mut self)
        ensures
            final(self)@ == old(self)@.delete_selection(),
            !old(self)@.selection.spec_has_selection() ==> *final(self) == *old(self),
    {
        if !self.selection.has_selection() {
            return ;
        }
        let (start, end) = self.selection.ordered();
        let start_idx = self.buffer.line_col_to_char(start.line, start.col);
        let end_idx = self.buffer.line_col_to_char(end.line, end.col);
        self.buffer.delete_range(start_idx, end_idx);
        self.cursor = start;
        self.selection = Selection::new(self.cursor);
        self.modified = true;
    }

    /// Get the selected text
    pub fn selected_text(&self) -> (text: String)
        ensures
            text@ == self@.selected_text(),
    {
        if !self.selection.has_selection() {
            return String::new();
        }
        let (start, end) = self.selection.ordered();
        let start_idx = self.buffer.line_col_to_char(start.line, start.col);
        let end_idx = self.buffer.line_col_to_char(end.line, end.col);
        self.buffer.slice_to_string(start_idx, end_idx)
    }

    /// Move cursor right
    pub fn move_right(&mut self, extend_selection: bool)
        ensures
            final(self)@ == old(self)@.with_cursor(
                old(self).cursor.moved_right(
                    old(self)@.line_len(old(self).cursor.line as int) as usize,
                    old(self)@.lines() as usize,
                ),
                extend_selection,
            ),
    {
        let line_len = self.line_len(self.cursor.line);
        let total_lines = self.line_count();
        let mut cursor = self.cursor;
        cursor.move_right(line_len, total_lines);
        self.place_cursor(cursor, extend_selection);
    }

    /// Move cursor left
    pub fn move_left(&mut self, extend_selection: bool)
        ensures
            final(self)@ == old(self)@.with_cursor(
                old(self).cursor.moved_left(
                    old(self)@.line_len(old(self).cursor.line - 1) as usize,
                ),
                extend_selection,
            ),
    {
        let mut cursor = self.cursor;
        let buffer = &self.buffer;
        let line_len = |line: usize| -> (len: usize)
            ensures
                len == text_line_len(buffer@, line as int),
            { buffer.line_len(line) };
        cursor.move_left(line_len);
        self.place_cursor(cursor, extend_selection);
    }

    /// Move cursor up
    pub fn move_up(&mut self, extend_selection: bool)
        ensures
            final(self)@ == old(self)@.with_cursor(
                old(self).cursor.moved_up(
                    old(self)@.line_len(old(self).cursor.line - 1) as usize,
                ),
                extend_selection,
            ),
    {
        let mut cursor = self.cursor;
        let buffer = &self.buffer;
        let line_len = |line: usize| -> (len: usize)
            ensures
                len == text_line_len(buffer@, line as int),
            { buffer.line_len(line) };
        cursor.move_up(line_len);
        self.place_cursor(cursor, extend_selection);
    }

    /// Move cursor down
    pub fn move_down(&mut self, extend_selection: bool)
        ensures
            final(self)@ == old(self)@.with_cursor(
                old(self).cursor.moved_down(
                    old(self)@.lines() as usize,
                    old(self)@.line_len(old(self).cursor.line + 1) as usize,
                ),
                extend_selection,
            ),
    {
        let total_lines = self.line_count();
        let mut cursor = self.cursor;
        let buffer = &self.buffer;
        let line_len = |line: usize| -> (len: usize)
            ensures
                len == text_line_len(buffer@, line as int),
            { buffer.line_len(line) };
        cursor.move_down(total_lines, line_len);
        self.place_cursor(cursor, extend_selection);
    }

    /// Move cursor to line start
    pub fn move_to_line_start(&mut self, extend_selection: bool)
        ensures
            final(self)@ == old(self)@.with_cursor(
                Cursor::spec_at(old(self).cursor.line, 0),
                extend_selection,
            ),
    {
        let mut cursor = self.cursor;
        cursor.move_to_line_start();
        self.place_cursor(cursor, extend_selection);
    }

    /// Move cursor to line end
    pub fn move_to_line_end(&mut self, extend_selection: bool)
        ensures
            final(self)@ == old(self)@.with_cursor(
                Cursor::spec_at(
                    old(self).cursor.line,
                    old(self)@.line_len(old(self).cursor.line as int) as usize,
                ),
                extend_selection,
            ),
    {
        let line_len = self.line_len(self.cursor.line);
        let mut cursor = self.cursor;
        cursor.move_to_line_end(line_len);
        self.place_cursor(cursor, extend_selection);
    }

    /// Move cursor to document start
    pub fn move_to_start(&mut self, extend_selection: bool)
        ensures
            final(self)@ == old(self)@.with_cursor(Cursor::spec_at(0, 0), extend_selection),
    {
        let mut cursor = self.cursor;
        cursor.move_to_start();
        self.place_cursor(cursor, extend_selection);
    }

    /// Move cursor to document end
    pub fn move_to_end(&mut self, extend_selection: bool)
        ensures
            final(self)@ == old(self)@.with_cursor(old(self)@.end_cursor(), extend_selection),
    {
        let total_lines = self.line_count();
        let last_line_len = self.line_len(total_lines - 1);
        let mut cursor = self.cursor;
        cursor.move_to_end(total_lines, last_line_len);
        self.place_cursor(cursor, extend_selection);
    }

    /// Move cursor to a specific line and column, both held within the
    /// document
    pub fn move_to(&mut self, line: usize, col: usize, extend_selection: bool)
        ensures
            final(self)@ == old(self)@.move_to(line, col, extend_selection),
    {
        let last = self.line_count() - 1;
        let line = if line <= last {
            line
        } else {
            last
        };
        let len = self.line_len(line);
        let col = if col <= len {
            col
        } else {
            len
        };
        let mut cursor = self.cursor;
        cursor.move_to(line, col);
        self.place_cursor(cursor, extend_selection);
    }

    /// Selects the stretch from `start_col` to `end_col` of line `line`
    pub fn select_stretch(&mut self, line: usize, start_col: usize, end_col: usize)
        ensures
            final(self)@ == old(self)@.select_stretch(line, start_col, end_col),
    {
        self.move_to(line, start_col, false);
        self.selection.anchor = self.cursor;
        self.cursor.col = end_col;
        self.selection.head = self.cursor;
    }

    /// Replaces the stretch from `start_col` to `end_col` of line `line`
    /// by `text`
    pub fn replace_stretch(&mut self, line: usize, start_col: usize, end_col: usize, text: &str)
        ensures
            final(self)@ == old(self)@.replace_stretch(line, start_col, end_col, text@),
    {
        self.select_stretch(line, start_col, end_col);
        self.delete_selection();
        self.insert_str(text);
    }

    /// Page up
    pub fn page_up(&mut self, page_size: usize, extend_selection: bool)
        ensures
            final(self)@ == old(self)@.with_cursor(
                old(self)@.cursor_on_line(
                    if old(self).cursor.line > page_size {
                        (old(self).cursor.line - page_size) as usize
                    } else {
                        0
                    },
                ),
                extend_selection,
            ),
    {
        let line = if self.cursor.line > page_size {
            self.cursor.line - page_size
        } else {
            0
        };
        self.go_to_line(line, extend_selection);
    }

    /// Page down
    pub fn page_down(&mut self, page_size: usize, extend_selection: bool)
        ensures
            final(self)@ == old(self)@.with_cursor(
                old(self)@.cursor_on_line(
                    at_most(old(self).cursor.line + page_size, old(self)@.last_line()) as usize,
                ),
                extend_selection,
            ),
    {
        let last = self.line_count() - 1;
        let target = self.cursor.line.saturating_add(page_size);
        let line = if target <= last {
            target
        } else {
            last
        };
        self.go_to_line(line, extend_selection);
    }

    /// Puts the cursor on `line`, in the column it wants or at the end of
    /// the line if that is shorter.
    fn go_to_line(&mut self, line: usize, extend_selection: bool)
        ensures
            final(self)@ == old(self)@.with_cursor(
                old(self)@.cursor_on_line(line),
                extend_selection,
            ),
    {
        let line_len = self.line_len(line);
        let col = if self.cursor.wanted_col <= line_len {
            self.cursor.wanted_col
        } else {
            line_len
        };
        let cursor = Cursor { line, col, wanted_col: self.cursor.wanted_col };
        self.place_cursor(cursor, extend_selection);
    }

    /// Select all text
    pub fn select_all(&mut self)
        ensures
            final(self)@ == (DocumentView {
                cursor: old(self)@.end_cursor(),
                selection: Selection {
                    anchor: Cursor::spec_at(0, 0),
                    head: old(self)@.end_cursor(),
                },
                ..old(self)@
            }),
    {
        self.selection.anchor = Cursor::new();
        let total_lines = self.line_count();
        let last_line_len = self.line_len(total_lines - 1);
        self.cursor.move_to_end(total_lines, last_line_len);
        self.selection.head = self.cursor;
    }

    /// Ensure the cursor is visible in the viewport
    pub fn ensure_cursor_visible(&mut self, visible_lines: usize, visible_cols: usize)
        ensures
            final(self)@ == old(self)@.ensure_cursor_visible(visible_lines, visible_cols),
            final(self).buffer == old(self).buffer,
    {
        if self.cursor.line < self.scroll_y {
            self.scroll_y = self.cursor.line;
        } else if self.cursor.line - self.scroll_y >= visible_lines {
            self.scroll_y = (self.cursor.line - visible_lines).saturating_add(1);
        }
        if self.cursor.col < self.scroll_x {
            self.scroll_x = self.cursor.col;
        } else if self.cursor.col - self.scroll_x >= visible_cols {
            self.scroll_x = (self.cursor.col - visible_cols).saturating_add(1);
        }
    }

    /// Toggle insert/overwrite mode
    pub fn toggle_insert_mode(&mut self)
        ensures
            final(self)@ == (DocumentView { insert_mode: !old(self).insert_mode, ..old(self)@ }),
    {
        self.insert_mode = !self.insert_mode;
    }
}

impl Default for Document {
    fn default() -> (d: Document)
        ensures
            d@ == DocumentView::fresh(Seq::empty()),
    {
        Document::new()
    }
}

} // verus!
