//! The state of the application: what is shown, what has the focus, the
//! open documents and the terminals.
//!
//! The application state never does input or output. Its owner draws it,
//! reads keys, files and directories, runs the pseudo-terminals, and tells
//! the state what happened.

pub mod dialogs;
pub mod editing;
pub mod events;
pub mod find;
pub mod finding;
pub mod keys;
pub mod menus;
pub mod mouse;
pub mod pointer;
pub mod request;

use vstd::prelude::*;

use crate::editor::document::{option_text, Document, DocumentView};
use crate::file_tree::tree::{disk_view, DirNode, FileTree, TreeView};
use crate::input::clicks::InputHandler;
use crate::search::SearchState;
use crate::terminal::registry::{TerminalRegistry, MAX_TERMINALS};
use crate::terminal::session::Terminal;
use crate::ui::dialog::{
    browser_entries, dir_entry_views, text_of, Dialog, DirSnapshot, FileOpenDialog, FileSaveAsDialog, GoToLineDialog,
};
use crate::ui::layout::{Pane, Rect, ResizeTarget};
use crate::ui::menu_bar::{
    is_step_down, is_step_up, menu_action_list, menu_actions, next_menu_index, prev_menu_index, step_down, step_up, MenuPosition, MENU_COUNT,
};
use crate::file_tree::tree::node_views;
use crate::editor::buffer::at_most;

verus! {

/// The share of the width the sidebar starts with, in percent.
pub const INITIAL_SIDEBAR_PERCENT: u16 = 20;

/// The share of the height the terminal starts with, in percent.
pub const INITIAL_TERMINAL_PERCENT: u16 = 50;

/// The main application state
pub struct App {
    /// Whether the application should quit
    pub should_quit: bool,
    /// Currently focused pane
    pub focused_pane: Pane,
    /// Whether the sidebar is visible
    pub show_sidebar: bool,
    /// Whether the editor pane is visible
    pub show_editor: bool,
    /// Whether the terminal pane is visible
    pub show_terminal: bool,
    /// Sidebar width as percentage (0-100)
    pub sidebar_width_percent: u16,
    /// Terminal height as percentage (0-100)
    pub terminal_height_percent: u16,
    /// Whether we're currently resizing a pane
    pub resizing: Option<ResizeTarget>,
    /// Input handler
    pub input_handler: InputHandler,
    /// Current working directory for file tree
    pub cwd: String,
    /// File tree state
    pub file_tree: FileTree,
    /// Last known file tree area for mouse hit detection
    pub file_tree_area: Option<Rect>,
    /// Open documents
    pub documents: Vec<Document>,
    /// Currently active document index
    pub active_doc: usize,
    /// Last known editor area for mouse hit detection
    pub editor_area: Option<Rect>,
    /// Currently open menu (None = menu bar closed)
    pub menu_open: Option<usize>,
    /// Currently selected menu item within open menu
    pub menu_selected: Option<usize>,
    /// Menu positions for click detection
    pub menu_positions: Vec<MenuPosition>,
    /// Active dialog (if any)
    pub dialog: Option<Dialog>,
    /// Terminal emulators, and which of them is active
    pub terminals: TerminalRegistry,
    /// Last known terminal area for resize detection
    pub terminal_area: Option<Rect>,
    /// Search state
    pub search: SearchState,
}

/// The panes that can take the focus, in the order the focus cycles
/// through them: the editor always, the others while they are shown.
pub open spec fn focus_ring(show_sidebar: bool, show_terminal: bool) -> Seq<Pane> {
    (if show_sidebar {
        seq![Pane::FileTree]
    } else {
        Seq::empty()
    }) + seq![Pane::Editor] + (if show_terminal {
        seq![Pane::Terminal]
    } else {
        Seq::empty()
    })
}

/// The place of a pane in the ring; the first place for a pane that is
/// not in it.
pub open spec fn place_in_ring(ring: Seq<Pane>, pane: Pane) -> int {
    if ring.contains(pane) {
        ring.index_of(pane)
    } else {
        0
    }
}

/// The pane that takes the focus after `pane`, going forward or
/// backward through the ring.
pub open spec fn next_in_ring(ring: Seq<Pane>, pane: Pane, forward: bool) -> Pane {
    let at = place_in_ring(ring, pane);
    if forward {
        ring[(at + 1) % (ring.len() as int)]
    } else {
        ring[(at + ring.len() - 1) % (ring.len() as int)]
    }
}

/// The index of the first document opened from `path`, or the number of
/// documents if there is none.
pub open spec fn first_with_path(documents: Seq<Document>, path: Seq<char>, upto: int) -> int
    decreases upto,
{
    if upto <= 0 {
        0
    } else {
        let before = first_with_path(documents, path, upto - 1);
        if before < upto - 1 {
            before
        } else if option_text(documents[upto - 1].path) == Some(path) {
            upto - 1
        } else {
            upto
        }
    }
}

/// The document index that tab number `tab` stands for: tabs count from
/// 1, and 0 means the last tab.
pub open spec fn tab_index(tab: u8, len: nat) -> int {
    if tab == 0 {
        if len == 0 {
            0
        } else {
            len - 1
        }
    } else {
        tab - 1
    }
}

impl App {
    /// The terminals and the search state are well formed, and there is
    /// an active document.
    pub open spec fn wf(&self) -> bool {
        &&& self.terminals.wf()
        &&& self.search.wf()
        &&& self.active_doc < self.documents@.len()
    }

    /// The application as it starts: one empty document, the editor
    /// focused, the file tree showing what was found in `cwd`, and one
    /// terminal if one could be opened.
    pub fn new(cwd: String, disk: Option<&DirNode>, terminal_opened: bool) -> (app: App)
        ensures
            app.wf(),
            !app.should_quit,
            app.focused_pane == Pane::Editor,
            app.show_sidebar && app.show_editor && app.show_terminal,
            app.sidebar_width_percent == INITIAL_SIDEBAR_PERCENT,
            app.terminal_height_percent == INITIAL_TERMINAL_PERCENT,
            app.resizing.is_none(),
            app.cwd@ == cwd@,
            app.file_tree@ == (TreeView {
                root: cwd@,
                entries: Seq::empty(),
                selected: 0,
                scroll_offset: 0,
                show_hidden: false,
            }).refresh(disk_view(disk)),
            app.documents@.len() == 1,
            app.documents@[0]@ == DocumentView::fresh(Seq::empty()),
            app.active_doc == 0,
            app.menu_open.is_none() && app.menu_selected.is_none(),
            app.menu_positions@.len() == 0,
            app.dialog.is_none(),
            app.terminals@.capacity == MAX_TERMINALS,
            app.terminals@.sessions.len() == if terminal_opened {
                1nat
            } else {
                0nat
            },
            app.terminals@.active == 0,
            app.file_tree_area.is_none() && app.editor_area.is_none() && app.terminal_area.is_none(),
            !app.search.active,
            app.search.matches@.len() == 0,
    {
        let file_tree = FileTree::new(cwd.clone(), false, disk);
        let mut documents: Vec<Document> = Vec::new();
        documents.push(Document::new());
        let mut terminals = TerminalRegistry::new();
        if terminal_opened {
            let _ = terminals.create();
        }
        App {
            should_quit: false,
            focused_pane: Pane::Editor,
            show_sidebar: true,
            show_editor: true,
            show_terminal: true,
            sidebar_width_percent: INITIAL_SIDEBAR_PERCENT,
            terminal_height_percent: INITIAL_TERMINAL_PERCENT,
            resizing: None,
            input_handler: InputHandler::new(),
            cwd,
            file_tree,
            file_tree_area: None,
            documents,
            active_doc: 0,
            editor_area: None,
            menu_open: None,
            menu_selected: None,
            menu_positions: Vec::new(),
            dialog: None,
            terminals,
            terminal_area: None,
            search: SearchState::new(),
        }
    }

    /// Get the active terminal
    pub fn active_terminal(&self) -> (t: Option<&Terminal>)
        ensures
            t.is_some() == (self.terminals.active < self.terminals.terminals@.len()),
            t matches Some(term) ==> *term == self.terminals.terminals@[self.terminals.active as int],
    {
        self.terminals.active_terminal()
    }

    /// Create a new terminal (up to 10 max), once its pseudo-terminal was
    /// opened; nothing happens if it could not be opened or there is no
    /// room
    pub fn new_terminal(&mut self, opened: bool)
        requires
            old(self).wf(),
        ensures
            final(self).wf(),
            final(self).terminals@ == if opened && !old(self).terminals@.is_full() {
                old(self).terminals@.create()
            } else {
                old(self).terminals@
            },
            *final(self) == (App { terminals: final(self).terminals, ..*old(self) }),
    {
        if opened {
            let _ = self.terminals.create();
        }
    }

    /// Close the active terminal
    pub fn close_terminal(&mut self)
        requires
            old(self).wf(),
        ensures
            final(self).wf(),
            final(self).terminals@ == old(self).terminals@.close(old(self).terminals@.active),
            *final(self) == (App { terminals: final(self).terminals, ..*old(self) }),
    {
        let active = self.terminals.active;
        self.terminals.close(active);
    }

    /// Switch to a specific terminal by index
    pub fn switch_terminal(&mut self, index: usize)
        requires
            old(self).wf(),
        ensures
            final(self).wf(),
            final(self).terminals@ == old(self).terminals@.switch(index as nat),
            *final(self) == (App { terminals: final(self).terminals, ..*old(self) }),
    {
        self.terminals.switch(index);
    }

    /// Switch to next terminal
    pub fn next_terminal(&mut self)
        requires
            old(self).wf(),
        ensures
            final(self).wf(),
            final(self).terminals@ == old(self).terminals@.next(),
            *final(self) == (App { terminals: final(self).terminals, ..*old(self) }),
    {
        self.terminals.next();
    }

    /// Switch to previous terminal
    pub fn prev_terminal(&mut self)
        requires
            old(self).wf(),
        ensures
            final(self).wf(),
            final(self).terminals@ == old(self).terminals@.prev(),
            *final(self) == (App { terminals: final(self).terminals, ..*old(self) }),
    {
        self.terminals.prev();
    }

    /// Resizes every terminal to the terminal pane, which gives two of
    /// its rows to its frame. `pty_resized[i]` tells whether the
    /// pseudo-terminal of terminal `i` took the size; a terminal that has
    /// the size already is not asked and stays as it is. Nothing happens
    /// before the pane has been laid out.
    pub fn check_terminal_resize(&mut self, pty_resized: &Vec<bool>)
        requires
            old(self).wf(),
        ensures
            final(self).wf(),
            final(self).terminals@ == match old(self).terminal_area {
                Some(area) => old(self).terminals@.broadcast_resize(
                    area.width,
                    crate::ui::layout::minus(area.height as int, 2) as u16,
                    pty_resized@,
                ),
                None => old(self).terminals@,
            },
            *final(self) == (App { terminals: final(self).terminals, ..*old(self) }),
    {
        match self.terminal_area {
            Some(area) => {
                let inner_cols = area.width;
                let inner_rows = area.height.saturating_sub(2);
                self.terminals.broadcast_resize(inner_cols, inner_rows, pty_resized);
            },
            None => {},
        }
    }

    /// Open the file open dialog on a directory that was read
    pub fn show_open_dialog(&mut self, start: &DirSnapshot)
        ensures
            final(self).dialog matches Some(Dialog::FileOpen(d)) && d.current_dir@ == start.dir@
                && dir_entry_views(d.entries@) == browser_entries(
                text_of(start.parent),
                node_views(start.listing@),
            ) && d.selected == 0 && d.scroll == 0 && d.input@.len() == 0 && !d.input_focused,
            *final(self) == (App { dialog: final(self).dialog, ..*old(self) }),
    {
        self.dialog = Some(Dialog::FileOpen(FileOpenDialog::new(start)));
    }

    /// The file name the save-as dialog starts with: the title of the
    /// active document, or `untitled.txt` if there is none
    pub fn initial_save_name(&self) -> (name: String)
        ensures
            self.active_doc >= self.documents@.len() ==> name@ == "untitled.txt"@,
    {
        if self.active_doc < self.documents.len() {
            self.documents[self.active_doc].title()
        } else {
            "untitled.txt".to_string()
        }
    }

    /// Open the file save as dialog on a directory that was read
    pub fn show_save_as_dialog(&mut self, start: &DirSnapshot)
        ensures
            final(self).dialog matches Some(Dialog::FileSaveAs(d)) && d.current_dir@ == start.dir@
                && dir_entry_views(d.entries@) == browser_entries(
                text_of(start.parent),
                node_views(start.listing@),
            ) && d.selected == 0 && d.focus == 0,
            *final(self) == (App { dialog: final(self).dialog, ..*old(self) }),
    {
        let name = self.initial_save_name();
        self.dialog = Some(Dialog::FileSaveAs(FileSaveAsDialog::new(start, name)));
    }

    /// Close any open dialog
    pub fn close_dialog(&mut self)
        ensures
            *final(self) == (App { dialog: None, ..*old(self) }),
    {
        self.dialog = None;
    }

    /// Open the go to line dialog
    pub fn show_go_to_line_dialog(&mut self)
        ensures
            final(self).dialog matches Some(Dialog::GoToLine(d)) && d.input@.len() == 0
                && d.error.is_none() && d.total_lines == (if old(self).active_doc < old(self).documents@.len() {
                old(self).documents@[old(self).active_doc as int]@.lines()
            } else {
                1
            }),
            *final(self) == (App { dialog: final(self).dialog, ..*old(self) }),
    {
        let total_lines = if self.active_doc < self.documents.len() {
            self.documents[self.active_doc].line_count()
        } else {
            1
        };
        self.dialog = Some(Dialog::GoToLine(GoToLineDialog::new(total_lines)));
    }

    /// Check if a dialog is open
    pub fn has_dialog(&self) -> (open: bool)
        ensures
            open == self.dialog.is_some(),
    {
        self.dialog.is_some()
    }

    /// Close the menu
    pub fn close_menu(&mut self)
        ensures
            *final(self) == (App { menu_open: None, menu_selected: None, ..*old(self) }),
    {
        self.menu_open = None;
        self.menu_selected = None;
    }

    /// Open a specific menu
    pub fn open_menu(&mut self, menu_idx: usize)
        ensures
            *final(self) == (App {
                menu_open: Some(menu_idx),
                menu_selected: Some(0usize),
                ..*old(self)
            }),
    {
        self.menu_open = Some(menu_idx);
        self.menu_selected = Some(0);
    }

    /// Move to the next menu
    pub fn next_menu(&mut self)
        ensures
            old(self).menu_open.is_none() ==> *final(self) == *old(self),
            old(self).menu_open matches Some(idx) ==> *final(self) == (App {
                menu_open: Some(next_menu_index(idx)),
                menu_selected: Some(0usize),
                ..*old(self)
            }),
    {
        match self.menu_open {
            Some(idx) => {
                let next = if idx == usize::MAX {
                    proof {
                        assert((usize::MAX + 1) % 6 == next_menu_index(usize::MAX));
                    }
                    next_after_last_word()
                } else {
                    (idx + 1) % MENU_COUNT
                };
                self.menu_open = Some(next);
                self.menu_selected = Some(0);
            },
            None => {},
        }
    }

    /// Move to the previous menu
    pub fn prev_menu(&mut self)
        ensures
            old(self).menu_open.is_none() ==> *final(self) == *old(self),
            old(self).menu_open matches Some(idx) ==> *final(self) == (App {
                menu_open: Some(prev_menu_index(idx)),
                menu_selected: Some(0usize),
                ..*old(self)
            }),
    {
        match self.menu_open {
            Some(idx) => {
                let prev = if idx == 0 {
                    MENU_COUNT - 1
                } else {
                    idx - 1
                };
                self.menu_open = Some(prev);
                self.menu_selected = Some(0);
            },
            None => {},
        }
    }

    /// Move selection down in the menu
    pub fn menu_select_next(&mut self)
        ensures
            ({
                let old_app = *old(self);
                match (old_app.menu_open, old_app.menu_selected) {
                    (Some(menu), Some(sel)) => if menu < MENU_COUNT {
                        final(self).menu_selected matches Some(k) && is_step_down(
                            menu_actions(menu as int),
                            sel as int,
                            k as int,
                        ) && *final(self) == (App {
                            menu_selected: final(self).menu_selected,
                            ..old_app
                        })
                    } else {
                        *final(self) == old_app
                    },
                    _ => *final(self) == old_app,
                }
            }),
    {
        match (self.menu_open, self.menu_selected) {
            (Some(menu_idx), Some(sel)) => {
                if menu_idx < MENU_COUNT {
                    let actions = menu_action_list(menu_idx);
                    self.menu_selected = Some(step_down(&actions, sel));
                }
            },
            _ => {},
        }
    }

    /// Move selection up in the menu
    pub fn menu_select_prev(&mut self)
        ensures
            ({
                let old_app = *old(self);
                match (old_app.menu_open, old_app.menu_selected) {
                    (Some(menu), Some(sel)) => if menu < MENU_COUNT {
                        final(self).menu_selected matches Some(k) && is_step_up(
                            menu_actions(menu as int),
                            sel as int,
                            k as int,
                        ) && *final(self) == (App {
                            menu_selected: final(self).menu_selected,
                            ..old_app
                        })
                    } else {
                        *final(self) == old_app
                    },
                    _ => *final(self) == old_app,
                }
            }),
    {
        match (self.menu_open, self.menu_selected) {
            (Some(menu_idx), Some(sel)) => {
                if menu_idx < MENU_COUNT {
                    let actions = menu_action_list(menu_idx);
                    self.menu_selected = Some(step_up(&actions, sel));
                }
            },
            _ => {},
        }
    }

    /// Get the current active document
    pub fn active_document(&self) -> (doc: Option<&Document>)
        ensures
            doc.is_some() == (self.active_doc < self.documents@.len()),
            doc matches Some(d) ==> *d == self.documents@[self.active_doc as int],
    {
        if self.active_doc < self.documents.len() {
            Some(&self.documents[self.active_doc])
        } else {
            None
        }
    }

    /// The index of the document that was opened from `path`, if there
    /// is one
    pub fn find_open(&self, path: &str) -> (index: Option<usize>)
        ensures
            index.is_some() == (first_with_path(
                self.documents@,
                path@,
                self.documents@.len() as int,
            ) < self.documents@.len()),
            index matches Some(i) ==> i == first_with_path(
                self.documents@,
                path@,
                self.documents@.len() as int,
            ),
    {
        let mut i: usize = 0;
        while i < self.documents.len()
            invariant
                i <= self.documents@.len(),
                first_with_path(self.documents@, path@, i as int) == i,
            decreases self.documents@.len() - i,
        {
            let same = match &self.documents[i].path {
                Some(p) => crate::text::str_eq(p.as_str(), path),
                None => false,
            };
            if same {
                proof {
                    lemma_first_with_path_stays(self.documents@, path@, i + 1, i as int);
                }
                return Some(i);
            }
            i += 1;
        }
        None
    }

    /// Open a file in a new tab, or switch to the tab that already shows
    /// it. `text` is what the file was found to hold, or `None` if it
    /// could not be read; it is not looked at if the file is open
    /// already. Returns whether the file is shown now.
    pub fn open_file(&mut self, path: String, text: Option<&str>) -> (shown: bool)
        requires
            old(self).wf(),
        ensures
            final(self).wf(),
            ({
                let n = old(self).documents@.len();
                let at = first_with_path(old(self).documents@, path@, n as int);
                if at < n {
                    shown && *final(self) == (App { active_doc: at as usize, ..*old(self) })
                } else {
                    match text {
                        Some(t) => {
                            &&& shown
                            &&& final(self).documents@.len() == n + 1
                            &&& final(self).documents@.take(n as int) == old(self).documents@
                            &&& final(self).documents@[n as int]@.text == t@
                            &&& final(self).documents@[n as int]@.path == Some(path@)
                            &&& !final(self).documents@[n as int]@.modified
                            &&& final(self).active_doc == n
                        },
                        None => !shown && *final(self) == *old(self),
                    }
                }
            }),
    {
        match self.find_open(path.as_str()) {
            Some(i) => {
                self.active_doc = i;
                true
            },
            None => {
                match text {
                    Some(t) => {
                        let doc = Document::open(path, t);
                        self.documents.push(doc);
                        self.active_doc = self.documents.len() - 1;
                        true
                    },
                    None => false,
                }
            },
        }
    }

    /// Create a new empty document
    pub fn new_file(&mut self)
        requires
            old(self).wf(),
        ensures
            final(self).wf(),
            final(self).documents@.len() == old(self).documents@.len() + 1,
            final(self).documents@.take(old(self).documents@.len() as int) == old(self).documents@,
            final(self).documents@.last()@ == DocumentView::fresh(Seq::empty()),
            final(self).active_doc == old(self).documents@.len(),
            *final(self) == (App {
                documents: final(self).documents,
                active_doc: final(self).active_doc,
                ..*old(self)
            }),
    {
        self.documents.push(Document::new());
        self.active_doc = self.documents.len() - 1;
    }

    /// Close the current document. The last document is not removed but
    /// replaced by an empty one.
    pub fn close_current(&mut self)
        requires
            old(self).wf(),
        ensures
            final(self).wf(),
            old(self).documents@.len() > 1 ==> final(self).documents@ == old(self).documents@.remove(
                old(self).active_doc as int,
            ) && final(self).active_doc == at_most(
                old(self).active_doc as int,
                old(self).documents@.len() - 2,
            ),
            old(self).documents@.len() == 1 ==> final(self).documents@.len() == 1 && final(self).documents@[0]@ == DocumentView::fresh(Seq::empty()) && final(self).active_doc == 0,
            *final(self) == (App {
                documents: final(self).documents,
                active_doc: final(self).active_doc,
                ..*old(self)
            }),
    {
        if self.documents.len() > 1 {
            self.documents.remove(self.active_doc);
            if self.active_doc >= self.documents.len() {
                self.active_doc = self.documents.len() - 1;
            }
        } else {
            self.documents.set(0, Document::new());
        }
    }

    /// Switch to the next tab
    pub fn next_tab(&mut self)
        requires
            old(self).wf(),
        ensures
            final(self).wf(),
            *final(self) == (App {
                active_doc: ((old(self).active_doc + 1) % (old(self).documents@.len() as int)) as usize,
                ..*old(self)
            }),
    {
        let len = self.documents.len();
        self.active_doc = (self.active_doc + 1) % len;
    }

    /// Switch to the previous tab
    pub fn prev_tab(&mut self)
        requires
            old(self).wf(),
        ensures
            final(self).wf(),
            *final(self) == (App {
                active_doc: if old(self).active_doc == 0 {
                    (old(self).documents@.len() - 1) as usize
                } else {
                    (old(self).active_doc - 1) as usize
                },
                ..*old(self)
            }),
    {
        self.active_doc = if self.active_doc == 0 {
            self.documents.len() - 1
        } else {
            self.active_doc - 1
        };
    }

    /// Switch to a specific tab by index (1-based for user, converted to 0-based)
    pub fn go_to_tab(&mut self, tab: u8)
        requires
            old(self).wf(),
        ensures
            final(self).wf(),
            *final(self) == (App {
                active_doc: if tab_index(tab, old(self).documents@.len()) < old(self).documents@.len() {
                    tab_index(tab, old(self).documents@.len()) as usize
                } else {
                    old(self).active_doc
                },
                ..*old(self)
            }),
    {
        let index: usize = if tab == 0 {
            self.documents.len() - 1
        } else {
            (tab - 1) as usize
        };
        if index < self.documents.len() {
            self.active_doc = index;
        }
    }

    /// Get the active terminal mutably
    pub fn active_terminal_mut(&mut self) -> (t: Option<&mut Terminal>)
        ensures
            t.is_some() == (old(self).terminals.active < old(self).terminals.terminals@.len()),
            t.is_none() ==> *final(self) == *old(self),
            t matches Some(term) ==> *term == old(self).terminals.terminals@[old(self).terminals.active as int] && final(self).terminals.terminals@ == old(self).terminals.terminals@.update(old(self).terminals.active as int, *final(term))
                && *final(self) == (App {
                terminals: TerminalRegistry {
                    terminals: final(self).terminals.terminals,
                    ..old(self).terminals
                },
                ..*old(self)
            }),
    {
        if self.terminals.active < self.terminals.terminals.len() {
            let active = self.terminals.active;
            Some(&mut self.terminals.terminals[active])
        } else {
            None
        }
    }

    /// Get the current active document mutably
    pub fn active_document_mut(&mut self) -> (doc: Option<&mut Document>)
        ensures
            doc.is_some() == (old(self).active_doc < old(self).documents@.len()),
            doc.is_none() ==> *final(self) == *old(self),
            doc matches Some(d) ==> *d == old(self).documents@[old(self).active_doc as int]
                && final(self).documents@ == old(self).documents@.update(
                old(self).active_doc as int,
                *final(d),
            ) && *final(self) == (App { documents: final(self).documents, ..*old(self) }),
    {
        if self.active_doc < self.documents.len() {
            let active = self.active_doc;
            Some(&mut self.documents[active])
        } else {
            None
        }
    }

    /// Cycle focus between visible panes
    pub fn cycle_focus(&mut self, forward: bool)
        ensures
            *final(self) == (App {
                focused_pane: next_in_ring(
                    focus_ring(old(self).show_sidebar, old(self).show_terminal),
                    old(self).focused_pane,
                    forward,
                ),
                ..*old(self)
            }),
    {
        let ghost ring = focus_ring(self.show_sidebar, self.show_terminal);
        let next = match (self.show_sidebar, self.show_terminal, self.focused_pane, forward) {
            (true, true, Pane::FileTree, true) => Pane::Editor,
            (true, true, Pane::Editor, true) => Pane::Terminal,
            (true, true, Pane::Terminal, true) => Pane::FileTree,
            (true, true, Pane::FileTree, false) => Pane::Terminal,
            (true, true, Pane::Editor, false) => Pane::FileTree,
            (true, true, Pane::Terminal, false) => Pane::Editor,
            (true, false, Pane::Editor, _) => Pane::FileTree,
            (true, false, _, _) => Pane::Editor,
            (false, true, Pane::Terminal, _) => Pane::Editor,
            (false, true, _, _) => Pane::Terminal,
            (false, false, _, _) => Pane::Editor,
        };
        proof {
            lemma_ring_places(self.show_sidebar, self.show_terminal);
            if ring.len() == 3 {
                assert((0int + 1) % 3 == 1 && (1int + 1) % 3 == 2 && (2int + 1) % 3 == 0);
            }
        }
        self.focused_pane = next;
    }

    /// Takes a new share for the pane that is being resized: the sidebar
    /// may take from 10 to 50 percent of the width, the terminal from 10
    /// to 70 percent of the height
    pub fn handle_resize_drag(&mut self, target: ResizeTarget, new_percent: u16)
        ensures
            *final(self) == match target {
                ResizeTarget::Sidebar => App {
                    sidebar_width_percent: crate::ui::layout::held_between(
                        new_percent as int,
                        10,
                        50,
                    ) as u16,
                    ..*old(self)
                },
                ResizeTarget::Terminal => App {
                    terminal_height_percent: crate::ui::layout::held_between(
                        new_percent as int,
                        10,
                        70,
                    ) as u16,
                    ..*old(self)
                },
            },
    {
        match target {
            ResizeTarget::Sidebar => {
                self.sidebar_width_percent = if new_percent < 10 {
                    10
                } else if new_percent > 50 {
                    50
                } else {
                    new_percent
                };
            },
            ResizeTarget::Terminal => {
                self.terminal_height_percent = if new_percent < 10 {
                    10
                } else if new_percent > 70 {
                    70
                } else {
                    new_percent
                };
            },
        }
    }
}

/// The value that follows the greatest machine word when menus are
/// counted round.
fn next_after_last_word() -> (next: usize)
    ensures
        next == next_menu_index(usize::MAX),
{
    let rest = usize::MAX % MENU_COUNT;
    (rest + 1) % MENU_COUNT
}

/// Where each pane stands in each ring.
proof fn lemma_ring_places(show_sidebar: bool, show_terminal: bool)
    ensures
        ({
            let ring = focus_ring(show_sidebar, show_terminal);
            &&& ring.len() == 1 + (if show_sidebar {
                1int
            } else {
                0int
            }) + (if show_terminal {
                1int
            } else {
                0int
            })
            &&& place_in_ring(ring, Pane::Editor) == (if show_sidebar {
                1int
            } else {
                0int
            })
            &&& place_in_ring(ring, Pane::FileTree) == 0
            &&& place_in_ring(ring, Pane::Terminal) == (if show_terminal {
                ring.len() - 1
            } else {
                0
            })
            &&& ring[place_in_ring(ring, Pane::Editor)] == Pane::Editor
            &&& show_sidebar ==> ring[0] == Pane::FileTree
            &&& show_terminal ==> ring[ring.len() - 1] == Pane::Terminal
        }),
{
    let ring = focus_ring(show_sidebar, show_terminal);
    let e: int = if show_sidebar {
        1
    } else {
        0
    };
    assert(ring[e] == Pane::Editor);
    ring.index_of_first_ensures(Pane::Editor);
    if show_sidebar {
        ring.index_of_first_ensures(Pane::FileTree);
    }
    if show_terminal {
        ring.index_of_first_ensures(Pane::Terminal);
    }
}

/// Once the first document with a path has been found among the first
/// `n`, documents further on do not change which one it is.
pub proof fn lemma_first_with_path_stays(
    documents: Seq<Document>,
    path: Seq<char>,
    n: int,
    k: int,
)
    requires
        0 <= k < n <= documents.len(),
        first_with_path(documents, path, n) == k,
    ensures
        first_with_path(documents, path, documents.len() as int) == k,
    decreases documents.len() - n,
{
    if n < documents.len() {
        lemma_first_with_path_stays(documents, path, n + 1, k);
    }
}

} // verus!
