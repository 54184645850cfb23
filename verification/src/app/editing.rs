//! What a key press does in the editor pane.

use vstd::prelude::*;
use crate::app::find::{active_of, found_next, found_prev};
use crate::app::request::{clipboard_text, Request};
use crate::app::App;
use crate::editor::buffer::at_most;
use crate::editor::cursor::Cursor;
use crate::editor::document::{Document, DocumentView};
use crate::input::keyboard::KeyEvent;
use crate::search::SearchState;
use crate::terminal::keys::KeyCode;

verus! {

/// The lines a page key moves the cursor.
pub const EDITOR_PAGE: usize = 20;

/// What a key press means to the editor.
#[derive(Debug, Clone, Copy, PartialEq, Eq, Structural)]
pub enum EditorStep {
    NewFile,
    OpenDialog,
    Save,
    SaveAs,
    Close,
    NextTab,
    PrevTab,
    SelectAll,
    Cut,
    Copy,
    Paste,
    Find,
    Replace,
    FindNext,
    FindPrev,
    /// Go to the tab of this number.
    GoToTab(u8),
    /// The key is for the active document.
    Edit,
}

/// The value of a decimal digit.
pub open spec fn digit_of(c: char) -> u8
    recommends
        '0' <= c && c <= '9',
{
    (c as u32 - 0x30) as u8
}

/// What a key press means to the editor: the shortcuts first, then Alt
/// with a digit for the tabs, and everything else is for the active
/// document.
pub open spec fn editor_step(key: KeyEvent) -> EditorStep {
    let ctrl = key.modifiers.control;
    let shift = key.modifiers.shift;
    let alt = key.modifiers.alt;
    if ctrl && !shift && key.code == KeyCode::Char('n') {
        EditorStep::NewFile
    } else if ctrl && !shift && key.code == KeyCode::Char('o') {
        EditorStep::OpenDialog
    } else if ctrl && !shift && key.code == KeyCode::Char('s') {
        EditorStep::Save
    } else if ctrl && shift && key.code == KeyCode::Char('S') {
        EditorStep::SaveAs
    } else if ctrl && !shift && key.code == KeyCode::Char('w') {
        EditorStep::Close
    } else if ctrl && !shift && key.code == KeyCode::PageDown {
        EditorStep::NextTab
    } else if ctrl && !shift && key.code == KeyCode::PageUp {
        EditorStep::PrevTab
    } else if ctrl && !shift && key.code == KeyCode::Char('a') {
        EditorStep::SelectAll
    } else if ctrl && !shift && key.code == KeyCode::Char('x') {
        EditorStep::Cut
    } else if ctrl && !shift && key.code == KeyCode::Char('c') {
        EditorStep::Copy
    } else if ctrl && !shift && key.code == KeyCode::Char('v') {
        EditorStep::Paste
    } else if ctrl && !shift && key.code == KeyCode::Char('f') {
        EditorStep::Find
    } else if ctrl && !shift && key.code == KeyCode::Char('h') {
        EditorStep::Replace
    } else if !ctrl && !shift && key.code == KeyCode::F(3) {
        EditorStep::FindNext
    } else if !ctrl && shift && key.code == KeyCode::F(3) {
        EditorStep::FindPrev
    } else if alt && !ctrl && !shift && (key.code matches KeyCode::Char(c) && '0' <= c && c <= '9') {
        EditorStep::GoToTab(digit_of(key.code->Char_0))
    } else {
        EditorStep::Edit
    }
}

/// Whether a character can be typed at the cursor: there must be room
/// for the cursor to move on.
pub open spec fn can_type(d: DocumentView) -> bool {
    d.delete_selection().cursor.line < usize::MAX && d.delete_selection().cursor.col < usize::MAX
}

/// What a key press that is for the document does to it.
///
/// The arrow keys, Home, End and the page keys move the cursor, and
/// extend the selection while Shift is held; with Control, Home and End
/// go to the ends of the document. Backspace and Delete delete, Enter
/// breaks the line, Tab puts in four spaces, Insert switches between
/// inserting and overwriting, and a character typed without Control or
/// Alt goes into the text.
pub open spec fn document_after_key(d: DocumentView, key: KeyEvent) -> DocumentView {
    let ctrl = key.modifiers.control;
    let shift = key.modifiers.shift;
    let alt = key.modifiers.alt;
    match key.code {
        KeyCode::Left => d.with_cursor(
            d.cursor.moved_left(d.line_len(d.cursor.line - 1) as usize),
            shift,
        ),
        KeyCode::Right => d.with_cursor(
            d.cursor.moved_right(d.line_len(d.cursor.line as int) as usize, d.lines() as usize),
            shift,
        ),
        KeyCode::Up => d.with_cursor(
            d.cursor.moved_up(d.line_len(d.cursor.line - 1) as usize),
            shift,
        ),
        KeyCode::Down => d.with_cursor(
            d.cursor.moved_down(d.lines() as usize, d.line_len(d.cursor.line + 1) as usize),
            shift,
        ),
        KeyCode::Home => if ctrl {
            d.with_cursor(Cursor::spec_at(0, 0), shift)
        } else {
            d.with_cursor(Cursor::spec_at(d.cursor.line, 0), shift)
        },
        KeyCode::End => if ctrl {
            d.with_cursor(d.end_cursor(), shift)
        } else {
            d.with_cursor(
                Cursor::spec_at(d.cursor.line, d.line_len(d.cursor.line as int) as usize),
                shift,
            )
        },
        KeyCode::PageUp => d.with_cursor(
            d.cursor_on_line(
                if d.cursor.line > EDITOR_PAGE {
                    (d.cursor.line - EDITOR_PAGE) as usize
                } else {
                    0
                },
            ),
            shift,
        ),
        KeyCode::PageDown => d.with_cursor(
            d.cursor_on_line(at_most(d.cursor.line + EDITOR_PAGE, d.last_line()) as usize),
            shift,
        ),
        KeyCode::Backspace => d.backspace(),
        KeyCode::Delete => d.delete(),
        KeyCode::Enter => if can_type(d) {
            d.insert_char('\n')
        } else {
            d
        },
        KeyCode::Tab => d.insert_str(seq![' ', ' ', ' ', ' ']),
        KeyCode::Insert => DocumentView { insert_mode: !d.insert_mode, ..d },
        KeyCode::Char(c) => if !ctrl && !alt && can_type(d) {
            d.insert_char(c)
        } else {
            d
        },
        _ => d,
    }
}

/// Whether `post` is `pre` but for its active document, whose view is
/// `view`.
pub open spec fn with_active_document(pre: App, view: DocumentView, post: App) -> bool {
    &&& post == (App { documents: post.documents, ..pre })
    &&& post.documents@.len() == pre.documents@.len()
    &&& active_of(post)@ == view
    &&& forall|i: int|
        0 <= i < pre.documents@.len() && i != pre.active_doc ==> #[trigger] post.documents@[i]
            == pre.documents@[i]
}

/// What the owner is asked for after a step of the editor: to save, to
/// read a directory for a dialog, to fill or to fetch the clipboard.
pub open spec fn editor_asks(step: EditorStep, pre: App, request: Request) -> bool {
    let d = active_of(pre)@;
    match step {
        EditorStep::OpenDialog => request == Request::ShowOpenDialog,
        EditorStep::Save => request == if d.path.is_some() {
            Request::SaveActive
        } else {
            Request::ShowSaveAsDialog
        },
        EditorStep::SaveAs => request == Request::ShowSaveAsDialog,
        EditorStep::Cut => if d.selected_text().len() > 0 {
            request is SetClipboard && clipboard_text(request) == Some(d.selected_text())
        } else {
            request == Request::Nothing
        },
        EditorStep::Copy => if d.selected_text().len() > 0 {
            request is SetClipboard && clipboard_text(request) == Some(d.selected_text())
        } else {
            request == Request::Nothing
        },
        EditorStep::Paste => request == Request::Paste,
        _ => request == Request::Nothing,
    }
}

/// Whether `post` is what a step of the editor makes of `pre`.
pub open spec fn editor_stepped(step: EditorStep, key: KeyEvent, pre: App, post: App) -> bool {
    let d = active_of(pre)@;
    let n = pre.documents@.len();
    match step {
        EditorStep::NewFile => {
            &&& post == (App { documents: post.documents, active_doc: n as usize, ..pre })
            &&& post.documents@.len() == n + 1
            &&& post.documents@.take(n as int) == pre.documents@
            &&& post.documents@.last()@ == DocumentView::fresh(Seq::empty())
        },
        EditorStep::Close => {
            &&& post == (App { documents: post.documents, active_doc: post.active_doc, ..pre })
            &&& n > 1 ==> post.documents@ == pre.documents@.remove(pre.active_doc as int)
                && post.active_doc == at_most(pre.active_doc as int, n - 2)
            &&& n == 1 ==> post.documents@.len() == 1 && post.documents@[0]@
                == DocumentView::fresh(Seq::empty()) && post.active_doc == 0
        },
        EditorStep::NextTab => post == (App {
            active_doc: ((pre.active_doc + 1) % (n as int)) as usize,
            ..pre
        }),
        EditorStep::PrevTab => post == (App {
            active_doc: if pre.active_doc == 0 {
                (n - 1) as usize
            } else {
                (pre.active_doc - 1) as usize
            },
            ..pre
        }),
        EditorStep::GoToTab(tab) => post == (App {
            active_doc: if crate::app::tab_index(tab, n) < n {
                crate::app::tab_index(tab, n) as usize
            } else {
                pre.active_doc
            },
            ..pre
        }),
        EditorStep::SelectAll => with_active_document(
            pre,
            DocumentView {
                cursor: d.end_cursor(),
                selection: crate::editor::cursor::Selection {
                    anchor: Cursor::spec_at(0, 0),
                    head: d.end_cursor(),
                },
                ..d
            },
            post,
        ),
        EditorStep::Cut => if d.selected_text().len() > 0 {
            with_active_document(pre, d.delete_selection(), post)
        } else {
            post == pre
        },
        EditorStep::Find => post == (App {
            search: SearchState { active: true, replace_mode: false, ..pre.search },
            ..pre
        }),
        EditorStep::Replace => post == (App {
            search: SearchState { active: true, replace_mode: true, ..pre.search },
            ..pre
        }),
        EditorStep::FindNext => if pre.search.query@.len() > 0 {
            found_next(pre, post)
        } else {
            post == pre
        },
        EditorStep::FindPrev => if pre.search.query@.len() > 0 {
            found_prev(pre, post)
        } else {
            post == pre
        },
        EditorStep::Edit => with_active_document(pre, document_after_key(d, key), post),
        // These wait for the owner: nothing changes yet.
        _ => post == pre,
    }
}

/// What a key press means to the editor.
pub fn decide_editor_key(key: KeyEvent) -> (step: EditorStep)
    ensures
        step == editor_step(key),
{
    let ctrl = key.modifiers.control;
    let shift = key.modifiers.shift;
    let alt = key.modifiers.alt;
    match key.code {
        KeyCode::Char(c) => {
            if ctrl && !shift && c == 'n' {
                EditorStep::NewFile
            } else if ctrl && !shift && c == 'o' {
                EditorStep::OpenDialog
            } else if ctrl && !shift && c == 's' {
                EditorStep::Save
            } else if ctrl && shift && c == 'S' {
                EditorStep::SaveAs
            } else if ctrl && !shift && c == 'w' {
                EditorStep::Close
            } else if ctrl && !shift && c == 'a' {
                EditorStep::SelectAll
            } else if ctrl && !shift && c == 'x' {
                EditorStep::Cut
            } else if ctrl && !shift && c == 'c' {
                EditorStep::Copy
            } else if ctrl && !shift && c == 'v' {
                EditorStep::Paste
            } else if ctrl && !shift && c == 'f' {
                EditorStep::Find
            } else if ctrl && !shift && c == 'h' {
                EditorStep::Replace
            } else if alt && !ctrl && !shift && '0' <= c && c <= '9' {
                let v: u32 = c as u32;
                EditorStep::GoToTab((v - 0x30) as u8)
            } else {
                EditorStep::Edit
            }
        },
        KeyCode::PageDown => if ctrl && !shift {
            EditorStep::NextTab
        } else {
            EditorStep::Edit
        },
        KeyCode::PageUp => if ctrl && !shift {
            EditorStep::PrevTab
        } else {
            EditorStep::Edit
        },
        KeyCode::F(n) => if n == 3 && !ctrl {
            if shift {
                EditorStep::FindPrev
            } else {
                EditorStep::FindNext
            }
        } else {
            EditorStep::Edit
        },
        _ => EditorStep::Edit,
    }
}

impl Document {
    /// What a key press that is for the document does to it.
    pub fn handle_key(&mut self, key: KeyEvent)
        ensures
            final(self)@ == document_after_key(old(self)@, key),
    {
        let ctrl = key.modifiers.control;
        let shift = key.modifiers.shift;
        let alt = key.modifiers.alt;
        match key.code {
            KeyCode::Left => self.move_left(shift),
            KeyCode::Right => self.move_right(shift),
            KeyCode::Up => self.move_up(shift),
            KeyCode::Down => self.move_down(shift),
            KeyCode::Home => {
                if ctrl {
                    self.move_to_start(shift);
                } else {
                    self.move_to_line_start(shift);
                }
            },
            KeyCode::End => {
                if ctrl {
                    self.move_to_end(shift);
                } else {
                    self.move_to_line_end(shift);
                }
            },
            KeyCode::PageUp => self.page_up(EDITOR_PAGE, shift),
            KeyCode::PageDown => self.page_down(EDITOR_PAGE, shift),
            KeyCode::Backspace => self.backspace(),
            KeyCode::Delete => self.delete(),
            KeyCode::Enter => {
                if self.has_room_to_type() {
                    self.insert_char('\n');
                }
            },
            KeyCode::Tab => {
                proof {
                    reveal_strlit("    ");
                    assert("    "@ =~= seq![' ', ' ', ' ', ' ']);
                }
                self.insert_str("    ");
            },
            KeyCode::Insert => self.toggle_insert_mode(),
            KeyCode::Char(c) => {
                if !ctrl && !alt && self.has_room_to_type() {
                    self.insert_char(c);
                }
            },
            _ => {},
        }
    }

    /// Whether a character can be typed at the cursor.
    pub fn has_room_to_type(&self) -> (room: bool)
        ensures
            room == can_type(self@),
    {
        let at = if self.selection.has_selection() {
            self.selection.ordered().0
        } else {
            self.cursor
        };
        at.line < usize::MAX && at.col < usize::MAX
    }
}

impl App {
    /// Handle keyboard events for the editor
    pub fn handle_editor_key(&mut self, key: KeyEvent) -> (request: Request)
        requires
            old(self).wf(),
        ensures
            final(self).wf(),
            editor_stepped(editor_step(key), key, *old(self), *final(self)),
            editor_asks(editor_step(key), *old(self), request),
    {
        let step = decide_editor_key(key);
        let active = self.active_doc;
        match step {
            EditorStep::NewFile => {
                self.new_file();
                Request::Nothing
            },
            EditorStep::OpenDialog => Request::ShowOpenDialog,
            EditorStep::Save => {
                if self.documents[active].path.is_some() {
                    Request::SaveActive
                } else {
                    Request::ShowSaveAsDialog
                }
            },
            EditorStep::SaveAs => Request::ShowSaveAsDialog,
            EditorStep::Close => {
                self.close_current();
                Request::Nothing
            },
            EditorStep::NextTab => {
                self.next_tab();
                Request::Nothing
            },
            EditorStep::PrevTab => {
                self.prev_tab();
                Request::Nothing
            },
            EditorStep::GoToTab(tab) => {
                self.go_to_tab(tab);
                Request::Nothing
            },
            EditorStep::SelectAll => {
                self.documents[active].select_all();
                Request::Nothing
            },
            EditorStep::Cut => {
                let text = self.documents[active].selected_text();
                if text.as_str().is_empty() {
                    Request::Nothing
                } else {
                    self.documents[active].delete_selection();
                    Request::SetClipboard(text)
                }
            },
            EditorStep::Copy => {
                let text = self.documents[active].selected_text();
                if text.as_str().is_empty() {
                    Request::Nothing
                } else {
                    Request::SetClipboard(text)
                }
            },
            EditorStep::Paste => Request::Paste,
            EditorStep::Find => {
                self.search.open();
                Request::Nothing
            },
            EditorStep::Replace => {
                self.search.open_replace();
                Request::Nothing
            },
            EditorStep::FindNext => {
                if !self.search.query.as_str().is_empty() {
                    self.find_next();
                }
                Request::Nothing
            },
            EditorStep::FindPrev => {
                if !self.search.query.as_str().is_empty() {
                    self.find_prev();
                }
                Request::Nothing
            },
            EditorStep::Edit => {
                self.documents[active].handle_key(key);
                Request::Nothing
            },
        }
    }

    /// Puts text that was fetched from the clipboard into the active
    /// document
    pub fn paste(&mut self, text: &str)
        requires
            old(self).wf(),
        ensures
            final(self).wf(),
            with_active_document(*old(self), active_of(*old(self))@.insert_str(text@), *final(self)),
    {
        let active = self.active_doc;
        self.documents[active].insert_str(text);
    }
}

} // verus!
