//! What a key press does while a dialog is open, and what a dialog does
//! with what its owner read from the disk.

use vstd::prelude::*;
use crate::app::editing::with_active_document;
use crate::app::find::{active_of, VIEW_COLS, VIEW_LINES};
use crate::app::first_with_path;
use crate::app::request::{request_path, Request};
use crate::app::App;
use crate::editor::document::DocumentView;
use crate::file_tree::tree::node_views;
use crate::input::keyboard::KeyEvent;
use crate::terminal::keys::KeyCode;
use crate::ui::dialog::{
    browser_entries, chosen_in, dir_entry_views, has_content, is_digit, line_choice, line_error_text, paged_down, paged_up, stepped_down, stepped_up, text_of, Chosen, Dialog, DirSnapshot, FileOpenDialog, FileSaveAsDialog, Found, GoToLineDialog,
};

verus! {

/// The entries a page key moves the selection of a file browser.
pub const DIALOG_PAGE: usize = 10;

/// What a dialog wants after a key press.
#[derive(Debug, Clone, PartialEq, Eq)]
pub enum DialogOutcome {
    /// The dialog stays open.
    Stay,
    /// The dialog closes.
    Close,
    /// The dialog closes and the file at this path is shown.
    OpenFile(String),
    /// The dialog closes and the active document is saved under this
    /// path.
    SaveAs(String),
    /// The dialog closes and the cursor goes to this line.
    GoToLine(usize),
    /// The dialog stays open and wants this directory read, to enter it.
    ReadDirectory(String),
    /// The dialog stays open and wants the directory above this one read.
    ReadParent(String),
    /// The dialog stays open and wants to know what is at this path.
    LookUp(String),
}

/// The path an outcome names, if it names one.
pub open spec fn outcome_path(outcome: DialogOutcome) -> Option<Seq<char>> {
    match outcome {
        DialogOutcome::OpenFile(p) => Some(p@),
        DialogOutcome::SaveAs(p) => Some(p@),
        DialogOutcome::ReadDirectory(p) => Some(p@),
        DialogOutcome::ReadParent(p) => Some(p@),
        DialogOutcome::LookUp(p) => Some(p@),
        _ => None,
    }
}

/// Whether `post` and `outcome` are what a key press makes of the
/// file-open dialog `pre`.
///
/// Escape closes. Tab moves the focus between the input field and the
/// list. While the list has the focus, the arrow and page keys move the
/// selection, Backspace asks for the directory above, and Enter opens
/// the selected file or asks for the selected directory. While the input
/// field has the focus, characters and Backspace edit it and Enter asks
/// what is at the path it holds.
pub open spec fn file_open_key(
    pre: FileOpenDialog,
    key: KeyEvent,
    post: FileOpenDialog,
    outcome: DialogOutcome,
) -> bool {
    match key.code {
        KeyCode::Esc => outcome == DialogOutcome::Close && post == pre,
        KeyCode::Tab => outcome == DialogOutcome::Stay && post == (FileOpenDialog {
            input_focused: !pre.input_focused,
            ..pre
        }),
        KeyCode::Up => outcome == DialogOutcome::Stay && post == if pre.input_focused {
            pre
        } else {
            FileOpenDialog { selected: stepped_up(pre.selected), ..pre }
        },
        KeyCode::Down => outcome == DialogOutcome::Stay && post == if pre.input_focused {
            pre
        } else {
            FileOpenDialog { selected: stepped_down(pre.selected, pre.entries@.len()), ..pre }
        },
        KeyCode::PageUp => outcome == DialogOutcome::Stay && post == if pre.input_focused {
            pre
        } else {
            FileOpenDialog { selected: paged_up(pre.selected, DIALOG_PAGE), ..pre }
        },
        KeyCode::PageDown => outcome == DialogOutcome::Stay && post == if pre.input_focused {
            pre
        } else {
            FileOpenDialog {
                selected: paged_down(pre.selected, DIALOG_PAGE, pre.entries@.len()),
                ..pre
            }
        },
        KeyCode::Backspace => if pre.input_focused {
            &&& outcome == DialogOutcome::Stay
            &&& post == (FileOpenDialog { input: post.input, ..pre })
            &&& post.input@ == crate::app::finding::erased(pre.input@)
        } else {
            outcome is ReadParent && outcome_path(outcome) == Some(pre.current_dir@) && post
                == pre
        },
        KeyCode::Enter => post == pre && if pre.input_focused {
            outcome is LookUp && outcome_path(outcome) == Some(pre.input@)
        } else {
            match chosen_in(pre.entries@, pre.selected) {
                None => outcome == DialogOutcome::Stay,
                Some(entry) => outcome_path(outcome) == Some(entry.path) && if entry.is_dir {
                    outcome is ReadDirectory
                } else {
                    outcome is OpenFile
                },
            }
        },
        KeyCode::Char(c) => outcome == DialogOutcome::Stay && if pre.input_focused {
            post == (FileOpenDialog { input: post.input, ..pre }) && post.input@
                == pre.input@.push(c)
        } else {
            post == pre
        },
        _ => outcome == DialogOutcome::Stay && post == pre,
    }
}

/// Whether `post` and `outcome` are what a key press makes of the
/// save-as dialog `pre`.
///
/// Escape closes. Tab moves the focus between the filename field and the
/// list. While the list has the focus, the arrow and page keys move the
/// selection, Backspace asks for the directory above, and Enter takes
/// the name of the selected file or asks for the selected directory.
/// While the filename field has the focus, characters and Backspace edit
/// it, and Enter saves under the name, in the directory shown, if the
/// name holds more than white space.
pub open spec fn save_as_key(
    pre: FileSaveAsDialog,
    key: KeyEvent,
    post: FileSaveAsDialog,
    outcome: DialogOutcome,
) -> bool {
    let in_list = pre.focus == 1;
    let in_name = pre.focus == 0;
    match key.code {
        KeyCode::Esc => outcome == DialogOutcome::Close && post == pre,
        KeyCode::Tab => outcome == DialogOutcome::Stay && post == (FileSaveAsDialog {
            focus: if pre.focus == 0 {
                1
            } else {
                0
            },
            ..pre
        }),
        KeyCode::Up => outcome == DialogOutcome::Stay && post == if in_list {
            FileSaveAsDialog { selected: stepped_up(pre.selected), ..pre }
        } else {
            pre
        },
        KeyCode::Down => outcome == DialogOutcome::Stay && post == if in_list {
            FileSaveAsDialog { selected: stepped_down(pre.selected, pre.entries@.len()), ..pre }
        } else {
            pre
        },
        KeyCode::PageUp => outcome == DialogOutcome::Stay && post == if in_list {
            FileSaveAsDialog { selected: paged_up(pre.selected, DIALOG_PAGE), ..pre }
        } else {
            pre
        },
        KeyCode::PageDown => outcome == DialogOutcome::Stay && post == if in_list {
            FileSaveAsDialog {
                selected: paged_down(pre.selected, DIALOG_PAGE, pre.entries@.len()),
                ..pre
            }
        } else {
            pre
        },
        KeyCode::Backspace => if in_name {
            &&& outcome == DialogOutcome::Stay
            &&& post == (FileSaveAsDialog { filename: post.filename, ..pre })
            &&& post.filename@ == crate::app::finding::erased(pre.filename@)
        } else {
            outcome is ReadParent && outcome_path(outcome) == Some(pre.current_dir@) && post
                == pre
        },
        KeyCode::Enter => if in_name {
            post == pre && if has_content(pre.filename@) {
                outcome is SaveAs && outcome_path(outcome) == Some(pre.save_path())
            } else {
                outcome == DialogOutcome::Stay
            }
        } else {
            match chosen_in(pre.entries@, pre.selected) {
                None => outcome == DialogOutcome::Stay && post == pre,
                Some(entry) => if entry.is_dir {
                    outcome is ReadDirectory && outcome_path(outcome) == Some(entry.path) && post
                        == pre
                } else {
                    outcome == DialogOutcome::Stay && post.filename@ == entry.name && post == (
                    FileSaveAsDialog { filename: post.filename, focus: 0, ..pre })
                },
            }
        },
        KeyCode::Char(c) => outcome == DialogOutcome::Stay && if in_name {
            post == (FileSaveAsDialog { filename: post.filename, ..pre }) && post.filename@
                == pre.filename@.push(c)
        } else {
            post == pre
        },
        _ => outcome == DialogOutcome::Stay && post == pre,
    }
}

/// Whether `post` and `outcome` are what a key press makes of the
/// go-to-line dialog `pre`.
///
/// Escape closes. Digits and Backspace edit the input and clear the
/// error. Enter goes to the line if the input names one, and else leaves
/// the dialog open with the error that says why not.
pub open spec fn go_to_line_key(
    pre: GoToLineDialog,
    key: KeyEvent,
    post: GoToLineDialog,
    outcome: DialogOutcome,
) -> bool {
    match key.code {
        KeyCode::Esc => outcome == DialogOutcome::Close && post == pre,
        KeyCode::Enter => post.input == pre.input && post.total_lines == pre.total_lines
            && match line_choice(pre.input@, pre.total_lines) {
            Ok(line) => outcome == DialogOutcome::GoToLine(line) && post.error == pre.error,
            Err(e) => outcome == DialogOutcome::Stay && text_of(post.error) == Some(
                line_error_text(e, pre.total_lines),
            ),
        },
        KeyCode::Backspace => outcome == DialogOutcome::Stay && post.input@
            == crate::app::finding::erased(pre.input@) && post.error.is_none() && post.total_lines
            == pre.total_lines,
        KeyCode::Char(c) => outcome == DialogOutcome::Stay && if is_digit(c) {
            post.input@ == pre.input@.push(c) && post.error.is_none() && post.total_lines
                == pre.total_lines
        } else {
            post == pre
        },
        _ => outcome == DialogOutcome::Stay && post == pre,
    }
}

impl FileOpenDialog {
    /// Handles a key press.
    pub fn handle_key(&mut self, key: KeyEvent) -> (outcome: DialogOutcome)
        ensures
            file_open_key(*old(self), key, *final(self), outcome),
    {
        match key.code {
            KeyCode::Esc => DialogOutcome::Close,
            KeyCode::Tab => {
                self.toggle_focus();
                DialogOutcome::Stay
            },
            KeyCode::Up => {
                if !self.input_focused {
                    self.move_up();
                }
                DialogOutcome::Stay
            },
            KeyCode::Down => {
                if !self.input_focused {
                    self.move_down();
                }
                DialogOutcome::Stay
            },
            KeyCode::PageUp => {
                if !self.input_focused {
                    self.page_up(DIALOG_PAGE);
                }
                DialogOutcome::Stay
            },
            KeyCode::PageDown => {
                if !self.input_focused {
                    self.page_down(DIALOG_PAGE);
                }
                DialogOutcome::Stay
            },
            KeyCode::Backspace => {
                if self.input_focused {
                    self.handle_backspace();
                    DialogOutcome::Stay
                } else {
                    DialogOutcome::ReadParent(self.current_dir.clone())
                }
            },
            KeyCode::Enter => {
                if self.input_focused {
                    DialogOutcome::LookUp(self.input.clone())
                } else {
                    match self.enter_selected() {
                        Chosen::Nothing => DialogOutcome::Stay,
                        Chosen::File(path) => DialogOutcome::OpenFile(path),
                        Chosen::Directory(path) => DialogOutcome::ReadDirectory(path),
                    }
                }
            },
            KeyCode::Char(c) => {
                if self.input_focused {
                    self.handle_input(c);
                }
                DialogOutcome::Stay
            },
            _ => DialogOutcome::Stay,
        }
    }
}

impl FileSaveAsDialog {
    /// Handles a key press.
    pub fn handle_key(&mut self, key: KeyEvent) -> (outcome: DialogOutcome)
        ensures
            save_as_key(*old(self), key, *final(self), outcome),
    {
        match key.code {
            KeyCode::Esc => DialogOutcome::Close,
            KeyCode::Tab => {
                self.toggle_focus();
                DialogOutcome::Stay
            },
            KeyCode::Up => {
                if self.focus == 1 {
                    self.move_up();
                }
                DialogOutcome::Stay
            },
            KeyCode::Down => {
                if self.focus == 1 {
                    self.move_down();
                }
                DialogOutcome::Stay
            },
            KeyCode::PageUp => {
                if self.focus == 1 {
                    self.page_up(DIALOG_PAGE);
                }
                DialogOutcome::Stay
            },
            KeyCode::PageDown => {
                if self.focus == 1 {
                    self.page_down(DIALOG_PAGE);
                }
                DialogOutcome::Stay
            },
            KeyCode::Backspace => {
                if self.focus == 0 {
                    self.handle_backspace();
                    DialogOutcome::Stay
                } else {
                    DialogOutcome::ReadParent(self.current_dir.clone())
                }
            },
            KeyCode::Enter => {
                if self.focus == 0 {
                    if self.is_valid() {
                        DialogOutcome::SaveAs(self.get_save_path())
                    } else {
                        DialogOutcome::Stay
                    }
                } else {
                    match self.enter_selected() {
                        Some(path) => DialogOutcome::ReadDirectory(path),
                        None => DialogOutcome::Stay,
                    }
                }
            },
            KeyCode::Char(c) => {
                if self.focus == 0 {
                    self.handle_input(c);
                }
                DialogOutcome::Stay
            },
            _ => DialogOutcome::Stay,
        }
    }
}

impl GoToLineDialog {
    /// Handles a key press.
    pub fn handle_key(&mut self, key: KeyEvent) -> (outcome: DialogOutcome)
        ensures
            go_to_line_key(*old(self), key, *final(self), outcome),
    {
        match key.code {
            KeyCode::Esc => DialogOutcome::Close,
            KeyCode::Enter => {
                match self.get_line_number() {
                    Some(line) => DialogOutcome::GoToLine(line),
                    None => DialogOutcome::Stay,
                }
            },
            KeyCode::Backspace => {
                self.handle_backspace();
                DialogOutcome::Stay
            },
            KeyCode::Char(c) => {
                self.handle_input(c);
                DialogOutcome::Stay
            },
            _ => DialogOutcome::Stay,
        }
    }
}

/// Whether `post` and `outcome` are what a key press makes of the dialog
/// `pre`. A message and the about dialog close on any key.
pub open spec fn dialog_key(pre: Dialog, key: KeyEvent, post: Dialog, outcome: DialogOutcome)
    -> bool {
    match pre {
        Dialog::FileOpen(d) => post matches Dialog::FileOpen(p) && file_open_key(d, key, p, outcome),
        Dialog::FileSaveAs(d) => post matches Dialog::FileSaveAs(p) && save_as_key(
            d,
            key,
            p,
            outcome,
        ),
        Dialog::GoToLine(d) => post matches Dialog::GoToLine(p) && go_to_line_key(
            d,
            key,
            p,
            outcome,
        ),
        Dialog::Message(_) => outcome == DialogOutcome::Close && post == pre,
        Dialog::About(_) => outcome == DialogOutcome::Close && post == pre,
    }
}

/// Handles a key press in whatever dialog is open.
pub fn dialog_handle_key(dialog: Dialog, key: KeyEvent) -> (r: (Dialog, DialogOutcome))
    ensures
        dialog_key(dialog, key, r.0, r.1),
{
    match dialog {
        Dialog::FileOpen(mut d) => {
            let outcome = d.handle_key(key);
            (Dialog::FileOpen(d), outcome)
        },
        Dialog::FileSaveAs(mut d) => {
            let outcome = d.handle_key(key);
            (Dialog::FileSaveAs(d), outcome)
        },
        Dialog::GoToLine(mut d) => {
            let outcome = d.handle_key(key);
            (Dialog::GoToLine(d), outcome)
        },
        Dialog::Message(d) => (Dialog::Message(d), DialogOutcome::Close),
        Dialog::About(d) => (Dialog::About(d), DialogOutcome::Close),
    }
}

/// Whether `post` and `request` are what the outcome of a dialog makes of
/// `mid`, the application with the dialog as the key press left it.
///
/// A dialog that closes is taken away. Showing a file switches to its tab
/// if it is open and else asks for it to be read. Saving under a new name
/// gives the active document the path at once and asks for the rest.
/// Going to a line moves the cursor there and scrolls it into view.
pub open spec fn dialog_done(mid: App, outcome: DialogOutcome, post: App, request: Request)
    -> bool {
    match outcome {
        DialogOutcome::Stay => post == mid && request == Request::Nothing,
        DialogOutcome::Close => post == (App { dialog: None, ..mid }) && request
            == Request::Nothing,
        DialogOutcome::OpenFile(path) => {
            let at = first_with_path(mid.documents@, path@, mid.documents@.len() as int);
            if at < mid.documents@.len() {
                post == (App { dialog: None, active_doc: at as usize, ..mid }) && request
                    == Request::Nothing
            } else {
                post == (App { dialog: None, ..mid }) && request is OpenFile && request_path(
                    request,
                ) == Some(path@)
            }
        },
        DialogOutcome::SaveAs(path) => {
            &&& request == Request::SaveActiveAndRefreshTree
            &&& with_active_document(
                App { dialog: None, ..mid },
                DocumentView { path: Some(path@), ..active_of(mid)@ },
                post,
            )
        },
        DialogOutcome::GoToLine(line) => {
            &&& request == Request::Nothing
            &&& with_active_document(
                App { dialog: None, ..mid },
                active_of(mid)@.move_to(line, 0, false).ensure_cursor_visible(
                    VIEW_LINES,
                    VIEW_COLS,
                ),
                post,
            )
        },
        DialogOutcome::ReadDirectory(path) => post == mid && request is ReadDirectory
            && request_path(request) == Some(path@),
        DialogOutcome::ReadParent(path) => post == mid && request is ReadParent && request_path(
            request,
        ) == Some(path@),
        DialogOutcome::LookUp(path) => post == mid && request is LookUp && request_path(request)
            == Some(path@),
    }
}

/// Whether `post` is `pre` after its file browser, if one is open, was
/// shown the directory `found`: the browser lists the directory and
/// selects its first entry, and the file-open dialog puts the path in its
/// input field.
pub open spec fn directory_entered(pre: App, found: DirSnapshot, post: App) -> bool {
    let listed = browser_entries(text_of(found.parent), node_views(found.listing@));
    &&& post == (App { dialog: post.dialog, ..pre })
    &&& match pre.dialog {
        Some(Dialog::FileOpen(d)) => post.dialog matches Some(Dialog::FileOpen(p))
            && p.current_dir@ == found.dir@ && p.input@ == found.dir@ && dir_entry_views(
            p.entries@,
        ) == listed && p.selected == 0 && p.scroll == 0 && p.input_focused == d.input_focused,
        Some(Dialog::FileSaveAs(d)) => post.dialog matches Some(Dialog::FileSaveAs(p))
            && p.current_dir@ == found.dir@ && dir_entry_views(p.entries@) == listed && p.selected
            == 0 && p.filename == d.filename && p.focus == d.focus,
        _ => post.dialog == pre.dialog,
    }
}

impl App {
    /// Handle keyboard events for dialogs. Without a dialog the key is
    /// dropped.
    pub fn handle_dialog_key(&mut self, key: KeyEvent) -> (request: Request)
        requires
            old(self).wf(),
        ensures
            final(self).wf(),
            old(self).dialog.is_none() ==> request == Request::Nothing && *final(self) == *old(self),
            old(self).dialog matches Some(pre) ==> exists|after: Dialog, outcome: DialogOutcome|
                #![trigger dialog_key(pre, key, after, outcome)]
                dialog_key(pre, key, after, outcome) && dialog_done(
                    App { dialog: Some(after), ..*old(self) },
                    outcome,
                    *final(self),
                    request,
                ),
    {
        let dialog = match self.dialog.take() {
            Some(dialog) => dialog,
            None => {
                return Request::Nothing;
            },
        };
        let (after, outcome) = dialog_handle_key(dialog, key);
        self.dialog = Some(after);
        let request = self.finish_dialog(outcome);
        request
    }

    /// Does what the outcome of a dialog calls for.
    fn finish_dialog(&mut self, outcome: DialogOutcome) -> (request: Request)
        requires
            old(self).wf(),
        ensures
            final(self).wf(),
            dialog_done(*old(self), outcome, *final(self), request),
    {
        let active = self.active_doc;
        match outcome {
            DialogOutcome::Stay => Request::Nothing,
            DialogOutcome::Close => {
                self.dialog = None;
                Request::Nothing
            },
            DialogOutcome::OpenFile(path) => {
                self.dialog = None;
                match self.find_open(path.as_str()) {
                    Some(i) => {
                        self.active_doc = i;
                        Request::Nothing
                    },
                    None => Request::OpenFile(path),
                }
            },
            DialogOutcome::SaveAs(path) => {
                self.dialog = None;
                self.documents[active].path = Some(path);
                Request::SaveActiveAndRefreshTree
            },
            DialogOutcome::GoToLine(line) => {
                self.dialog = None;
                self.documents[active].move_to(line, 0, false);
                self.documents[active].ensure_cursor_visible(VIEW_LINES, VIEW_COLS);
                Request::Nothing
            },
            DialogOutcome::ReadDirectory(path) => Request::ReadDirectory(path),
            DialogOutcome::ReadParent(path) => Request::ReadParent(path),
            DialogOutcome::LookUp(path) => Request::LookUp(path),
        }
    }

    /// Lets the open file browser show a directory that was read for it.
    /// Without a file browser nothing happens.
    pub fn dialog_enter_directory(&mut self, found: &DirSnapshot)
        ensures
            directory_entered(*old(self), *found, *final(self)),
    {
        match self.dialog.take() {
            Some(Dialog::FileOpen(mut d)) => {
                d.enter_directory(found);
                self.dialog = Some(Dialog::FileOpen(d));
            },
            Some(Dialog::FileSaveAs(mut d)) => {
                d.enter_directory(found);
                self.dialog = Some(Dialog::FileSaveAs(d));
            },
            other => {
                self.dialog = other;
            },
        }
    }

    /// Lets the open file browser go to the directory above, which was
    /// read for it if there is one. Without a file browser, or without a
    /// directory above, nothing happens.
    pub fn dialog_go_up(&mut self, up: Option<&DirSnapshot>)
        ensures
            match up {
                Some(found) => directory_entered(*old(self), *found, *final(self)),
                None => *final(self) == *old(self),
            },
    {
        match up {
            Some(found) => self.dialog_enter_directory(found),
            None => {},
        }
    }

    /// Tells the file-open dialog what was found at the path in its input
    /// field: a directory is shown; a file closes the dialog and is shown,
    /// or asked for if it is not open yet; anything else changes nothing.
    /// Without a file-open dialog nothing happens.
    pub fn dialog_found(&mut self, found: &Found) -> (request: Request)
        requires
            old(self).wf(),
        ensures
            final(self).wf(),
            final(self).documents == old(self).documents,
            final(self).terminals == old(self).terminals,
            final(self).search == old(self).search,
            !(old(self).dialog matches Some(Dialog::FileOpen(_))) ==> request == Request::Nothing
                && *final(self) == *old(self),
            old(self).dialog matches Some(Dialog::FileOpen(d)) ==> match found {
                Found::Directory(dir) => request == Request::Nothing && final(self).active_doc
                    == old(self).active_doc && (final(self).dialog matches Some(
                    Dialog::FileOpen(p),
                ) && p.current_dir@ == dir.dir@ && dir_entry_views(p.entries@) == browser_entries(
                    text_of(dir.parent),
                    node_views(dir.listing@),
                ) && p.selected == 0 && p.scroll == 0 && p.input == d.input),
                Found::File => {
                    let at = first_with_path(
                        old(self).documents@,
                        d.input@,
                        old(self).documents@.len() as int,
                    );
                    &&& final(self).dialog.is_none()
                    &&& at < old(self).documents@.len() ==> request == Request::Nothing
                        && final(self).active_doc == at
                    &&& at >= old(self).documents@.len() ==> request is OpenFile && request_path(
                        request,
                    ) == Some(d.input@) && final(self).active_doc == old(self).active_doc
                },
                Found::Missing => request == Request::Nothing && *final(self) == *old(self),
            },
    {
        match self.dialog.take() {
            Some(Dialog::FileOpen(mut d)) => {
                match d.navigate_to_input(found) {
                    Some(path) => {
                        match self.find_open(path.as_str()) {
                            Some(i) => {
                                self.active_doc = i;
                                Request::Nothing
                            },
                            None => Request::OpenFile(path),
                        }
                    },
                    None => {
                        self.dialog = Some(Dialog::FileOpen(d));
                        Request::Nothing
                    },
                }
            },
            other => {
                self.dialog = other;
                Request::Nothing
            },
        }
    }
}

} // verus!
