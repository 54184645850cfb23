//! What a key press does: to the terminal, to the search bar, to the
//! file tree.

use vstd::prelude::*;
use crate::app::request::{request_path, written_bytes, Request};
use crate::app::App;
use crate::app::first_with_path;
use crate::file_tree::tree::{
    disk_view, lemma_entry_views, spec_paged_down, DirNode, EntryKind, EntryView, TreeView,
};
use crate::input::keyboard::KeyEvent;
use crate::terminal::keys::{key_bytes, KeyCode};
use crate::terminal::registry::TerminalRegistry;
use crate::terminal::session::TerminalView;
use crate::ui::layout::Pane;

verus! {

/// The rows a terminal scrolls with Shift and a page key.
pub const TERMINAL_PAGE: usize = 10;

/// What a key press in the terminal pane does to the view of the active
/// terminal.
///
/// The function keys that move the focus do nothing here. With Shift, the
/// page keys scroll by `TERMINAL_PAGE` rows, Home scrolls to the oldest
/// row and End to live output. Every other key goes to the child, and a
/// character, Enter or Backspace first returns a scrolled view to live
/// output.
pub open spec fn terminal_after_key(t: TerminalView, key: KeyEvent) -> TerminalView {
    if is_focus_key(key.code) {
        t
    } else if key.modifiers.shift && key.code == KeyCode::PageUp {
        t.scroll_up(TERMINAL_PAGE as nat)
    } else if key.modifiers.shift && key.code == KeyCode::PageDown {
        t.scroll_down(TERMINAL_PAGE as nat)
    } else if key.modifiers.shift && key.code == KeyCode::Home {
        t.scroll_up(crate::terminal::session::SCROLLBACK_LINES as nat)
    } else if key.modifiers.shift && key.code == KeyCode::End {
        t.scroll_to_bottom()
    } else if t.offset > 0 && is_typing_key(key.code) {
        t.scroll_to_bottom()
    } else {
        t
    }
}

/// Whether a key press in the terminal pane is passed on to the child.
pub open spec fn goes_to_child(key: KeyEvent) -> bool {
    !is_focus_key(key.code) && !(key.modifiers.shift && is_scroll_key(key.code))
}

/// The bytes a key press in the terminal pane sends to the child, if
/// any.
pub open spec fn terminal_key_bytes(key: KeyEvent) -> Option<Seq<u8>> {
    if goes_to_child(key) {
        key_bytes(key.code, key.modifiers)
    } else {
        None
    }
}

/// F2, F3 and F4 move the focus and are not for the terminal.
pub open spec fn is_focus_key(code: KeyCode) -> bool {
    code == KeyCode::F(2) || code == KeyCode::F(3) || code == KeyCode::F(4)
}

/// The keys that scroll the terminal when Shift is held.
pub open spec fn is_scroll_key(code: KeyCode) -> bool {
    code == KeyCode::PageUp || code == KeyCode::PageDown || code == KeyCode::Home || code
        == KeyCode::End
}

/// The keys that count as typing.
pub open spec fn is_typing_key(code: KeyCode) -> bool {
    code is Char || code == KeyCode::Enter || code == KeyCode::Backspace
}

/// Whether `post` and `request` are what a key press in the terminal
/// pane makes of `pre`: the active terminal scrolls as
/// `terminal_after_key` says, and the bytes that `terminal_key_bytes`
/// gives are to be written to it. Without a terminal nothing happens.
pub open spec fn terminal_key_handled(pre: App, key: KeyEvent, post: App, request: Request)
    -> bool {
    &&& post == (App {
        terminals: TerminalRegistry { terminals: post.terminals.terminals, ..pre.terminals },
        ..pre
    })
    &&& pre.terminals@.sessions.len() == 0 ==> request == Request::Nothing && post.terminals
        == pre.terminals
    &&& pre.terminals@.sessions.len() > 0 ==> {
        let active = pre.terminals.active as int;
        &&& post.terminals.terminals@.len() == pre.terminals.terminals@.len()
        &&& post.terminals.terminals@[active]@ == terminal_after_key(
            pre.terminals.terminals@[active]@,
            key,
        )
        &&& forall|i: int|
            0 <= i < pre.terminals.terminals@.len() && i != active
                ==> #[trigger] post.terminals.terminals@[i] == pre.terminals.terminals@[i]
        &&& written_bytes(request) == terminal_key_bytes(key)
        &&& terminal_key_bytes(key).is_none() ==> request == Request::Nothing
    }
}

impl App {
    /// Handle keyboard events for the terminal. Without an active
    /// terminal the key is dropped.
    pub fn handle_terminal_key(&mut self, key: KeyEvent) -> (request: Request)
        requires
            old(self).wf(),
        ensures
            final(self).wf(),
            terminal_key_handled(*old(self), key, *final(self), request),
    {
        let shift = key.modifiers.shift;
        match key.code {
            KeyCode::F(n) => {
                if n == 2 || n == 3 || n == 4 {
                    return Request::Nothing;
                }
            },
            _ => {},
        }
        if self.terminals.terminals.len() == 0 {
            return Request::Nothing;
        }
        let active = self.terminals.active;
        if shift {
            match key.code {
                KeyCode::PageUp => {
                    self.terminals.terminals[active].scroll_up(TERMINAL_PAGE);
                    proof {
                        self.lemma_one_terminal_changed(*old(self), active as int);
                    }
                    return Request::Nothing;
                },
                KeyCode::PageDown => {
                    self.terminals.terminals[active].scroll_down(TERMINAL_PAGE);
                    proof {
                        self.lemma_one_terminal_changed(*old(self), active as int);
                    }
                    return Request::Nothing;
                },
                KeyCode::Home => {
                    let max = self.terminals.terminals[active].max_scrollback();
                    self.terminals.terminals[active].scroll_up(max);
                    proof {
                        self.lemma_one_terminal_changed(*old(self), active as int);
                    }
                    return Request::Nothing;
                },
                KeyCode::End => {
                    self.terminals.terminals[active].scroll_to_bottom();
                    proof {
                        self.lemma_one_terminal_changed(*old(self), active as int);
                    }
                    return Request::Nothing;
                },
                _ => {},
            }
        }
        if self.terminals.terminals[active].is_scrolled_back() {
            match key.code {
                KeyCode::Char(_) | KeyCode::Enter | KeyCode::Backspace => {
                    self.terminals.terminals[active].scroll_to_bottom();
                },
                _ => {},
            }
        }
        proof {
            self.lemma_one_terminal_changed(*old(self), active as int);
        }
        match self.terminals.terminals[active].send_key(key.code, key.modifiers) {
            Some(bytes) => Request::WriteToTerminal(bytes),
            None => Request::Nothing,
        }
    }

    /// A registry in which one well-formed terminal took the place of
    /// another is still well formed.
    pub proof fn lemma_one_terminal_changed(self, before: App, active: int)
        requires
            before.wf(),
            0 <= active < before.terminals.terminals@.len(),
            self.terminals.terminals@.len() == before.terminals.terminals@.len(),
            self.terminals.terminals@[active].wf(),
            forall|i: int|
                0 <= i < before.terminals.terminals@.len() && i != active
                    ==> self.terminals.terminals@[i] == before.terminals.terminals@[i],
            self.terminals.active == before.terminals.active,
            self.terminals.capacity == before.terminals.capacity,
            self.search == before.search,
            self.documents == before.documents,
            self.active_doc == before.active_doc,
        ensures
            self.wf(),
    {
    }
}

/// The rows the file tree moves with a page key.
pub const TREE_PAGE: usize = 10;

/// The keys that move the selection of the file tree, and where to.
pub open spec fn tree_after_key(v: TreeView, code: KeyCode) -> TreeView {
    if code == KeyCode::Up || code == KeyCode::Char('k') {
        if v.selected > 0 {
            (TreeView { selected: (v.selected - 1) as usize, ..v }).scrolled_to_selection()
        } else {
            v
        }
    } else if code == KeyCode::Down || code == KeyCode::Char('j') {
        if v.selected + 1 < v.entries.len() {
            (TreeView { selected: (v.selected + 1) as usize, ..v }).scrolled_to_selection()
        } else {
            v
        }
    } else if code == KeyCode::Home || code == KeyCode::Char('g') {
        TreeView { selected: 0, scroll_offset: 0, ..v }
    } else if code == KeyCode::End || code == KeyCode::Char('G') {
        (TreeView {
            selected: if v.entries.len() > 0 {
                (v.entries.len() - 1) as usize
            } else {
                v.selected
            },
            ..v
        }).scrolled_to_selection()
    } else if code == KeyCode::PageUp {
        (TreeView {
            selected: if v.selected > TREE_PAGE {
                (v.selected - TREE_PAGE) as usize
            } else {
                0
            },
            ..v
        }).scrolled_to_selection()
    } else if code == KeyCode::PageDown {
        (TreeView {
            selected: spec_paged_down(v.selected, TREE_PAGE, v.entries.len()),
            ..v
        }).scrolled_to_selection()
    } else {
        v
    }
}

/// Whether a key opens what is selected in the file tree.
pub open spec fn is_open_key(code: KeyCode) -> bool {
    code == KeyCode::Enter || code == KeyCode::Right || code == KeyCode::Char('l')
}

/// Whether a key closes the directory selected in the file tree.
pub open spec fn is_close_key(code: KeyCode) -> bool {
    code == KeyCode::Left || code == KeyCode::Char('h')
}

/// The selected entry of a tree, if there is one.
pub open spec fn selected_in(v: TreeView) -> Option<EntryView> {
    if v.selected < v.entries.len() {
        Some(v.entries[v.selected as int])
    } else {
        None
    }
}

/// Whether a file is selected in the tree.
pub open spec fn selects_file(v: TreeView) -> bool {
    match selected_in(v) {
        Some(entry) => entry.kind == EntryKind::File,
        None => false,
    }
}

/// What a key press in the file tree asks of the owner: to read the
/// disk so that a directory can be opened or closed, or to read a file
/// that is not open yet.
pub open spec fn tree_key_asks(app: App, code: KeyCode) -> Option<Seq<char>> {
    match selected_in(app.file_tree@) {
        Some(entry) => if is_open_key(code) {
            if entry.kind == EntryKind::Directory || first_with_path(
                app.documents@,
                entry.path,
                app.documents@.len() as int,
            ) >= app.documents@.len() {
                Some(entry.path)
            } else {
                None
            }
        } else if is_close_key(code) && entry.kind == EntryKind::Directory && entry.expanded {
            Some(entry.path)
        } else {
            None
        },
        None => None,
    }
}

/// Whether `post` and `request` are what a key press in the file tree
/// makes of `pre`.
pub open spec fn file_tree_key_handled(pre: App, key: KeyEvent, post: App, request: Request)
    -> bool {
    let opens_file = is_open_key(key.code) && selects_file(pre.file_tree@);
    let at = first_with_path(
        pre.documents@,
        selected_in(pre.file_tree@).unwrap().path,
        pre.documents@.len() as int,
    );
    &&& post == (App {
        file_tree: post.file_tree,
        focused_pane: post.focused_pane,
        active_doc: post.active_doc,
        ..pre
    })
    &&& post.file_tree@ == tree_after_key(pre.file_tree@, key.code)
    &&& post.file_tree.entries == pre.file_tree.entries
    &&& request_path(request) == tree_key_asks(pre, key.code)
    &&& request is ToggleTreeEntry || request is OpenFile || request is Nothing
    &&& request is ToggleTreeEntry <==> tree_key_asks(pre, key.code).is_some() && selected_in(
        pre.file_tree@,
    ).unwrap().kind == EntryKind::Directory
    &&& opens_file ==> post.focused_pane == Pane::Editor
    &&& !opens_file ==> post.focused_pane == pre.focused_pane && post.active_doc == pre.active_doc
    &&& opens_file && request is Nothing ==> post.active_doc == at
    &&& opens_file && request is OpenFile ==> post.active_doc == pre.active_doc
}

impl App {
    /// Handle keyboard events for the file tree.
    ///
    /// The arrow keys and their letters, Home, End and the page keys
    /// move the selection. Enter on a directory asks for the disk to be
    /// read, so that `toggle_tree_entry` can open or close it; on a file
    /// it gives the editor the focus and shows the file, asking for it to
    /// be read unless it is open already. Left asks the same for a
    /// directory that is open.
    pub fn handle_file_tree_key(&mut self, key: KeyEvent) -> (request: Request)
        requires
            old(self).wf(),
        ensures
            final(self).wf(),
            file_tree_key_handled(*old(self), key, *final(self), request),
    {
        // Reading the length tells that the number of entries fits a machine word.
        let shown = self.file_tree.entries.len();
        proof {
            lemma_entry_views(self.file_tree.entries@);
        }
        match key.code {
            KeyCode::Up => {
                self.file_tree.move_up();
                Request::Nothing
            },
            KeyCode::Down => {
                self.file_tree.move_down();
                Request::Nothing
            },
            KeyCode::Home => {
                self.file_tree.go_to_top();
                Request::Nothing
            },
            KeyCode::End => {
                self.file_tree.go_to_bottom();
                Request::Nothing
            },
            KeyCode::PageUp => {
                self.file_tree.page_up(TREE_PAGE);
                Request::Nothing
            },
            KeyCode::PageDown => {
                self.file_tree.page_down(TREE_PAGE);
                Request::Nothing
            },
            KeyCode::Enter | KeyCode::Right => self.open_selected_entry(),
            KeyCode::Left => self.close_selected_entry(),
            KeyCode::Char(c) => {
                if c == 'k' {
                    self.file_tree.move_up();
                    Request::Nothing
                } else if c == 'j' {
                    self.file_tree.move_down();
                    Request::Nothing
                } else if c == 'g' {
                    self.file_tree.go_to_top();
                    Request::Nothing
                } else if c == 'G' {
                    self.file_tree.go_to_bottom();
                    Request::Nothing
                } else if c == 'l' {
                    self.open_selected_entry()
                } else if c == 'h' {
                    self.close_selected_entry()
                } else {
                    Request::Nothing
                }
            },
            _ => Request::Nothing,
        }
    }

    /// Enter on the selected entry of the file tree.
    fn open_selected_entry(&mut self) -> (request: Request)
        requires
            old(self).wf(),
        ensures
            final(self).wf(),
            *final(self) == (App {
                focused_pane: final(self).focused_pane,
                active_doc: final(self).active_doc,
                ..*old(self)
            }),
            match selected_in(old(self).file_tree@) {
                None => request == Request::Nothing && *final(self) == *old(self),
                Some(entry) => if entry.kind == EntryKind::Directory {
                    request is ToggleTreeEntry && request_path(request) == Some(entry.path)
                        && *final(self) == *old(self)
                } else {
                    let at = first_with_path(
                        old(self).documents@,
                        entry.path,
                        old(self).documents@.len() as int,
                    );
                    &&& final(self).focused_pane == Pane::Editor
                    &&& at < old(self).documents@.len() ==> request == Request::Nothing
                        && final(self).active_doc == at
                    &&& at >= old(self).documents@.len() ==> request is OpenFile && request_path(
                        request,
                    ) == Some(entry.path) && final(self).active_doc == old(self).active_doc
                },
            },
    {
        proof {
            lemma_entry_views(self.file_tree.entries@);
        }
        if self.file_tree.selected >= self.file_tree.entries.len() {
            return Request::Nothing;
        }
        let is_dir = self.file_tree.entries[self.file_tree.selected].is_dir();
        let path = self.file_tree.entries[self.file_tree.selected].path.clone();
        if is_dir {
            Request::ToggleTreeEntry(path)
        } else {
            self.focused_pane = Pane::Editor;
            match self.find_open(path.as_str()) {
                Some(i) => {
                    self.active_doc = i;
                    Request::Nothing
                },
                None => Request::OpenFile(path),
            }
        }
    }

    /// Left on the selected entry of the file tree.
    fn close_selected_entry(&self) -> (request: Request)
        ensures
            match selected_in(self.file_tree@) {
                Some(entry) => if entry.kind == EntryKind::Directory && entry.expanded {
                    request is ToggleTreeEntry && request_path(request) == Some(entry.path)
                } else {
                    request == Request::Nothing
                },
                None => request == Request::Nothing,
            },
    {
        proof {
            lemma_entry_views(self.file_tree.entries@);
        }
        if self.file_tree.selected >= self.file_tree.entries.len() {
            return Request::Nothing;
        }
        let entry = &self.file_tree.entries[self.file_tree.selected];
        if entry.is_dir() && entry.expanded {
            Request::ToggleTreeEntry(entry.path.clone())
        } else {
            Request::Nothing
        }
    }

    /// Opens or closes the selected directory of the file tree, now that
    /// the disk was read.
    pub fn toggle_tree_entry(&mut self, disk: Option<&DirNode>)
        ensures
            final(self).file_tree@ == old(self).file_tree@.toggle_expand(disk_view(disk)),
            *final(self) == (App { file_tree: final(self).file_tree, ..*old(self) }),
    {
        self.file_tree.toggle_expand(disk);
    }
}

} // verus!
