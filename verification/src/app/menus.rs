//! What choosing an item of a menu does.

use vstd::prelude::*;
use crate::app::editing::with_active_document;
use crate::app::find::{active_of, found_next, found_prev};
use crate::app::request::{clipboard_text, Request};
use crate::app::App;
use crate::editor::cursor::{Cursor, Selection};
use crate::editor::document::{Document, DocumentView};
use crate::search::SearchState;

use crate::ui::dialog::{AboutDialog, Dialog};
use crate::ui::layout::Pane;
use crate::ui::menu_bar::{menu_action_list, menu_actions, MenuAction};

verus! {

/// The action of the item that is selected in the open menu, if a menu is
/// open and an item of it is selected.
pub open spec fn chosen_action(app: App) -> Option<MenuAction> {
    match (app.menu_open, app.menu_selected) {
        (Some(menu), Some(sel)) => if sel < menu_actions(menu as int).len() {
            Some(menu_actions(menu as int)[sel as int])
        } else {
            None
        },
        _ => None,
    }
}

/// Whether `post` and `request` are what a menu action makes of `pre`,
/// the application with the menu already closed.
pub open spec fn action_done(action: MenuAction, pre: App, post: App, request: Request) -> bool {
    let d = active_of(pre)@;
    let n = pre.documents@.len();
    match action {
        MenuAction::NewFile => {
            &&& request == Request::Nothing
            &&& post == (App { documents: post.documents, active_doc: n as usize, ..pre })
            &&& post.documents@.len() == n + 1
            &&& post.documents@.take(n as int) == pre.documents@
            &&& post.documents@.last()@ == DocumentView::fresh(Seq::empty())
        },
        MenuAction::OpenFile => post == pre && request == Request::ShowOpenDialog,
        MenuAction::Save => post == pre && request == if d.path.is_some() {
            Request::SaveActive
        } else {
            Request::Nothing
        },
        MenuAction::SaveAs => post == pre && request == Request::ShowSaveAsDialog,
        MenuAction::SaveAll => post == pre && request == Request::SaveAll,
        MenuAction::Close => {
            &&& request == Request::Nothing
            &&& post == (App { documents: post.documents, active_doc: post.active_doc, ..pre })
            &&& n > 1 ==> post.documents@ == pre.documents@.remove(pre.active_doc as int)
                && post.active_doc == crate::editor::buffer::at_most(pre.active_doc as int, n - 2)
            &&& n == 1 ==> post.documents@.len() == 1 && post.documents@[0]@
                == DocumentView::fresh(Seq::empty()) && post.active_doc == 0
        },
        MenuAction::CloseAll => {
            &&& request == Request::Nothing
            &&& post == (App { documents: post.documents, active_doc: 0, ..pre })
            &&& post.documents@.len() == 1
            &&& post.documents@[0]@ == DocumentView::fresh(Seq::empty())
        },
        MenuAction::Quit => post == (App { should_quit: true, ..pre }) && request
            == Request::Nothing,
        MenuAction::Undo => post == pre && request == Request::Nothing,
        MenuAction::Redo => post == pre && request == Request::Nothing,
        MenuAction::Cut => if d.selected_text().len() > 0 {
            with_active_document(pre, d.delete_selection(), post) && request is SetClipboard
                && clipboard_text(request) == Some(d.selected_text())
        } else {
            post == pre && request == Request::Nothing
        },
        MenuAction::Copy => post == pre && if d.selected_text().len() > 0 {
            request is SetClipboard && clipboard_text(request) == Some(
                d.selected_text(),
            )
        } else {
            request == Request::Nothing
        },
        MenuAction::Paste => post == pre && request == Request::Paste,
        MenuAction::SelectAll => request == Request::Nothing && with_active_document(
            pre,
            DocumentView {
                cursor: d.end_cursor(),
                selection: Selection { anchor: Cursor::spec_at(0, 0), head: d.end_cursor() },
                ..d
            },
            post,
        ),
        MenuAction::Find => request == Request::Nothing && post == (App {
            search: SearchState { active: true, replace_mode: false, ..pre.search },
            focused_pane: Pane::Editor,
            ..pre
        }),
        MenuAction::FindNext => request == Request::Nothing && found_next(pre, post),
        MenuAction::FindPrevious => request == Request::Nothing && found_prev(pre, post),
        MenuAction::Replace => request == Request::Nothing && post == (App {
            search: SearchState { active: true, replace_mode: true, ..pre.search },
            focused_pane: Pane::Editor,
            ..pre
        }),
        MenuAction::GoToLine => {
            &&& request == Request::Nothing
            &&& post == (App { dialog: post.dialog, ..pre })
            &&& post.dialog matches Some(Dialog::GoToLine(g)) && g.input@.len() == 0
                && g.error.is_none() && g.total_lines == d.lines()
        },
        MenuAction::ToggleSidebar => request == Request::Nothing && post == (App {
            show_sidebar: !pre.show_sidebar,
            ..pre
        }),
        MenuAction::ToggleEditor => request == Request::Nothing && post == (App {
            show_editor: !pre.show_editor,
            ..pre
        }),
        MenuAction::ToggleTerminal => request == Request::Nothing && post == (App {
            show_terminal: !pre.show_terminal,
            ..pre
        }),
        MenuAction::FocusEditor => request == Request::Nothing && post == (App {
            focused_pane: Pane::Editor,
            ..pre
        }),
        MenuAction::FocusFileTree => request == Request::Nothing && post == if pre.show_sidebar {
            App { focused_pane: Pane::FileTree, ..pre }
        } else {
            pre
        },
        MenuAction::FocusTerminal => request == Request::Nothing && post == if pre.show_terminal {
            App { focused_pane: Pane::Terminal, ..pre }
        } else {
            pre
        },
        MenuAction::NewTerminal => {
            &&& post == (App { show_terminal: true, focused_pane: Pane::Terminal, ..pre })
            &&& request == if pre.terminals@.is_full() {
                Request::Nothing
            } else {
                Request::OpenTerminal
            }
        },
        MenuAction::CloseTerminal => {
            &&& post == (App { terminals: post.terminals, ..pre })
            &&& post.terminals@ == pre.terminals@.close(pre.terminals@.active)
            &&& request == if pre.terminals@.sessions.len() > 0 {
                Request::DropTerminal(pre.terminals.active)
            } else {
                Request::Nothing
            }
        },
        MenuAction::NextTerminal => {
            &&& request == Request::Nothing
            &&& post == (App { terminals: post.terminals, ..pre })
            &&& post.terminals@ == pre.terminals@.next()
        },
        MenuAction::PrevTerminal => {
            &&& request == Request::Nothing
            &&& post == (App { terminals: post.terminals, ..pre })
            &&& post.terminals@ == pre.terminals@.prev()
        },
        MenuAction::About => request == Request::Nothing && post == (App {
            dialog: Some(Dialog::About(AboutDialog {  })),
            ..pre
        }),
        MenuAction::Separator => post == pre && request == Request::Nothing,
    }
}

/// Whether `post` and `request` are what choosing the selected item of
/// the open menu makes of `pre`: the menu closes and the action of the
/// item is done. Without such an item nothing happens.
pub open spec fn menu_action_executed(pre: App, post: App, request: Request) -> bool {
    match chosen_action(pre) {
        Some(action) => action_done(
            action,
            App { menu_open: None, menu_selected: None, ..pre },
            post,
            request,
        ),
        None => post == pre && request == Request::Nothing,
    }
}

impl App {
    /// Execute the currently selected menu action
    pub fn execute_menu_action(&mut self) -> (request: Request)
        requires
            old(self).wf(),
        ensures
            final(self).wf(),
            menu_action_executed(*old(self), *final(self), request),
    {
        let action = match (self.menu_open, self.menu_selected) {
            (Some(menu_idx), Some(sel)) => {
                let actions = menu_action_list(menu_idx);
                if sel < actions.len() {
                    actions[sel]
                } else {
                    return Request::Nothing;
                }
            },
            _ => {
                return Request::Nothing;
            },
        };
        self.close_menu();
        self.do_action(action)
    }

    /// Does a menu action.
    pub fn do_action(&mut self, action: MenuAction) -> (request: Request)
        requires
            old(self).wf(),
        ensures
            final(self).wf(),
            action_done(action, *old(self), *final(self), request),
    {
        let active = self.active_doc;
        match action {
            MenuAction::NewFile => {
                self.new_file();
                Request::Nothing
            },
            MenuAction::OpenFile => Request::ShowOpenDialog,
            MenuAction::Save => {
                if self.documents[active].path.is_some() {
                    Request::SaveActive
                } else {
                    Request::Nothing
                }
            },
            MenuAction::SaveAs => Request::ShowSaveAsDialog,
            MenuAction::SaveAll => Request::SaveAll,
            MenuAction::Close => {
                self.close_current();
                Request::Nothing
            },
            MenuAction::CloseAll => {
                self.documents.clear();
                self.documents.push(Document::new());
                self.active_doc = 0;
                Request::Nothing
            },
            MenuAction::Quit => {
                self.should_quit = true;
                Request::Nothing
            },
            MenuAction::Undo => Request::Nothing,
            MenuAction::Redo => Request::Nothing,
            MenuAction::Cut => {
                let text = self.documents[active].selected_text();
                if text.as_str().is_empty() {
                    Request::Nothing
                } else {
                    self.documents[active].delete_selection();
                    Request::SetClipboard(text)
                }
            },
            MenuAction::Copy => {
                let text = self.documents[active].selected_text();
                if text.as_str().is_empty() {
                    Request::Nothing
                } else {
                    Request::SetClipboard(text)
                }
            },
            MenuAction::Paste => Request::Paste,
            MenuAction::SelectAll => {
                self.documents[active].select_all();
                Request::Nothing
            },
            MenuAction::Find => {
                self.search.open();
                self.focused_pane = Pane::Editor;
                Request::Nothing
            },
            MenuAction::FindNext => {
                self.find_next();
                Request::Nothing
            },
            MenuAction::FindPrevious => {
                self.find_prev();
                Request::Nothing
            },
            MenuAction::Replace => {
                self.search.open_replace();
                self.focused_pane = Pane::Editor;
                Request::Nothing
            },
            MenuAction::GoToLine => {
                self.show_go_to_line_dialog();
                Request::Nothing
            },
            MenuAction::ToggleSidebar => {
                self.show_sidebar = !self.show_sidebar;
                Request::Nothing
            },
            MenuAction::ToggleEditor => {
                self.show_editor = !self.show_editor;
                Request::Nothing
            },
            MenuAction::ToggleTerminal => {
                self.show_terminal = !self.show_terminal;
                Request::Nothing
            },
            MenuAction::FocusEditor => {
                self.focused_pane = Pane::Editor;
                Request::Nothing
            },
            MenuAction::FocusFileTree => {
                if self.show_sidebar {
                    self.focused_pane = Pane::FileTree;
                }
                Request::Nothing
            },
            MenuAction::FocusTerminal => {
                if self.show_terminal {
                    self.focused_pane = Pane::Terminal;
                }
                Request::Nothing
            },
            MenuAction::NewTerminal => {
                self.show_terminal = true;
                self.focused_pane = Pane::Terminal;
                if self.terminals.is_full() {
                    Request::Nothing
                } else {
                    Request::OpenTerminal
                }
            },
            MenuAction::CloseTerminal => self.close_active_terminal(),
            MenuAction::NextTerminal => {
                self.next_terminal();
                Request::Nothing
            },
            MenuAction::PrevTerminal => {
                self.prev_terminal();
                Request::Nothing
            },
            MenuAction::About => {
                self.dialog = Some(Dialog::About(AboutDialog::new()));
                Request::Nothing
            },
            MenuAction::Separator => Request::Nothing,
        }
    }

    /// Closes the active terminal and asks for its pseudo-terminal to be
    /// dropped.
    pub fn close_active_terminal(&mut self) -> (request: Request)
        requires
            old(self).wf(),
        ensures
            final(self).wf(),
            *final(self) == (App { terminals: final(self).terminals, ..*old(self) }),
            final(self).terminals@ == old(self).terminals@.close(old(self).terminals@.active),
            request == if old(self).terminals@.sessions.len() > 0 {
                Request::DropTerminal(old(self).terminals.active)
            } else {
                Request::Nothing
            },
    {
        let active = self.terminals.active;
        let any = !self.terminals.is_empty();
        self.close_terminal();
        if any {
            Request::DropTerminal(active)
        } else {
            Request::Nothing
        }
    }
}

} // verus!
