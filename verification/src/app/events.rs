//! Where a key press goes: to the dialog, the search bar or the menu if
//! one is open, else to the shortcuts that work everywhere, else to the
//! pane that has the focus.

use vstd::prelude::*;
use crate::app::dialogs::{dialog_done, dialog_key, DialogOutcome};
use crate::app::editing::{editor_asks, editor_step, editor_stepped};
use crate::app::finding::{search_step, search_stepped};
use crate::app::keys::{file_tree_key_handled, terminal_key_handled};
use crate::app::menus::menu_action_executed;
use crate::app::request::Request;
use crate::app::{focus_ring, next_in_ring, App};
use crate::input::keyboard::KeyEvent;
use crate::terminal::keys::{KeyCode, KeyModifiers};
use crate::ui::dialog::Dialog;
use crate::ui::layout::Pane;
use crate::ui::menu_bar::{
    is_step_down, is_step_up, menu_actions, next_menu_index, prev_menu_index, MENU_COUNT,
};

verus! {

/// Whether exactly these of Shift, Control and Alt are held, and none of
/// the other modifiers.
pub open spec fn holds_exactly(m: KeyModifiers, shift: bool, control: bool, alt: bool) -> bool {
    m == (KeyModifiers {
        shift,
        control,
        alt,
        super_key: false,
        hyper: false,
        meta: false,
    })
}

/// A shortcut that works wherever the focus is.
#[derive(Debug, Clone, Copy, PartialEq, Eq, Structural)]
pub enum Shortcut {
    /// F10, or Alt with `f`: open the first menu.
    OpenMenu,
    Quit,
    ToggleSidebar,
    ToggleTerminal,
    ToggleEditor,
    FocusFileTree,
    FocusEditor,
    FocusTerminal,
    GoToLine,
    NewTerminal,
    CloseTerminal,
    NextTerminal,
    PrevTerminal,
    /// Make the terminal of this index active.
    SwitchTerminal(usize),
    CycleFocusForward,
    CycleFocusBackward,
}

/// The index of the terminal that Alt with a digit from 1 to 9 names.
pub open spec fn terminal_index(c: char) -> usize
    recommends
        '1' <= c && c <= '9',
{
    (c as u32 - 0x31) as usize
}

/// The shortcut a key press stands for while the pane `focused` has the
/// focus, if it stands for one. The shortcuts for the terminals work
/// only in the terminal pane, Tab moves the focus from anywhere but the
/// editor, and the modifiers must be exactly as named.
pub open spec fn shortcut(focused: Pane, key: KeyEvent) -> Option<Shortcut> {
    let m = key.modifiers;
    let only_ctrl = holds_exactly(m, false, true, false);
    let only_alt = holds_exactly(m, false, false, true);
    let only_shift = holds_exactly(m, true, false, false);
    let none = holds_exactly(m, false, false, false);
    let in_terminal = focused == Pane::Terminal;
    match key.code {
        KeyCode::F(n) => if n == 10 {
            Some(Shortcut::OpenMenu)
        } else if none && n == 3 {
            Some(Shortcut::FocusFileTree)
        } else if none && n == 2 {
            Some(Shortcut::FocusEditor)
        } else if none && n == 4 {
            Some(Shortcut::FocusTerminal)
        } else {
            None
        },
        KeyCode::Char(c) => if only_alt && c == 'f' {
            Some(Shortcut::OpenMenu)
        } else if only_ctrl && c == 'q' {
            Some(Shortcut::Quit)
        } else if only_ctrl && c == 'b' {
            Some(Shortcut::ToggleSidebar)
        } else if only_ctrl && c == 't' {
            Some(Shortcut::ToggleTerminal)
        } else if only_ctrl && c == 'e' {
            Some(Shortcut::ToggleEditor)
        } else if only_ctrl && c == 'g' {
            Some(Shortcut::GoToLine)
        } else if only_ctrl && c == 'n' && in_terminal {
            Some(Shortcut::NewTerminal)
        } else if only_ctrl && c == 'w' && in_terminal {
            Some(Shortcut::CloseTerminal)
        } else if only_alt && c == '.' && in_terminal {
            Some(Shortcut::NextTerminal)
        } else if only_alt && c == ',' && in_terminal {
            Some(Shortcut::PrevTerminal)
        } else if only_alt && '1' <= c && c <= '9' && in_terminal {
            Some(Shortcut::SwitchTerminal(terminal_index(c)))
        } else {
            None
        },
        KeyCode::Tab => if none && focused != Pane::Editor {
            Some(Shortcut::CycleFocusForward)
        } else {
            None
        },
        KeyCode::BackTab => if only_shift {
            Some(Shortcut::CycleFocusBackward)
        } else {
            None
        },
        _ => None,
    }
}

/// Whether `post` and `request` are what a shortcut makes of `pre`.
pub open spec fn shortcut_done(s: Shortcut, pre: App, post: App, request: Request) -> bool {
    match s {
        Shortcut::OpenMenu => request == Request::Nothing && post == (App {
            menu_open: Some(0usize),
            menu_selected: Some(0usize),
            ..pre
        }),
        Shortcut::Quit => request == Request::Nothing && post == (App { should_quit: true, ..pre }),
        Shortcut::ToggleSidebar => request == Request::Nothing && post == (App {
            show_sidebar: !pre.show_sidebar,
            ..pre
        }),
        Shortcut::ToggleTerminal => request == Request::Nothing && post == (App {
            show_terminal: !pre.show_terminal,
            ..pre
        }),
        Shortcut::ToggleEditor => request == Request::Nothing && post == (App {
            show_editor: !pre.show_editor,
            ..pre
        }),
        Shortcut::FocusFileTree => request == Request::Nothing && post == if pre.show_sidebar {
            App { focused_pane: Pane::FileTree, ..pre }
        } else {
            pre
        },
        Shortcut::FocusEditor => request == Request::Nothing && post == (App {
            focused_pane: Pane::Editor,
            ..pre
        }),
        Shortcut::FocusTerminal => request == Request::Nothing && post == if pre.show_terminal {
            App { focused_pane: Pane::Terminal, ..pre }
        } else {
            pre
        },
        Shortcut::GoToLine => {
            &&& request == Request::Nothing
            &&& post == (App { dialog: post.dialog, ..pre })
            &&& post.dialog matches Some(Dialog::GoToLine(g)) && g.input@.len() == 0
                && g.error.is_none() && g.total_lines == crate::app::find::active_of(pre)@.lines()
        },
        Shortcut::NewTerminal => {
            &&& post == (App { show_terminal: true, ..pre })
            &&& request == if pre.terminals@.is_full() {
                Request::Nothing
            } else {
                Request::OpenTerminal
            }
        },
        Shortcut::CloseTerminal => {
            &&& post == (App { terminals: post.terminals, ..pre })
            &&& post.terminals@ == pre.terminals@.close(pre.terminals@.active)
            &&& request == if pre.terminals@.sessions.len() > 0 {
                Request::DropTerminal(pre.terminals.active)
            } else {
                Request::Nothing
            }
        },
        Shortcut::NextTerminal => {
            &&& request == Request::Nothing
            &&& post == (App { terminals: post.terminals, ..pre })
            &&& post.terminals@ == pre.terminals@.next()
        },
        Shortcut::PrevTerminal => {
            &&& request == Request::Nothing
            &&& post == (App { terminals: post.terminals, ..pre })
            &&& post.terminals@ == pre.terminals@.prev()
        },
        Shortcut::SwitchTerminal(index) => {
            &&& request == Request::Nothing
            &&& post == (App { terminals: post.terminals, ..pre })
            &&& post.terminals@ == pre.terminals@.switch(index as nat)
        },
        Shortcut::CycleFocusForward => request == Request::Nothing && post == (App {
            focused_pane: next_in_ring(
                focus_ring(pre.show_sidebar, pre.show_terminal),
                pre.focused_pane,
                true,
            ),
            ..pre
        }),
        Shortcut::CycleFocusBackward => request == Request::Nothing && post == (App {
            focused_pane: next_in_ring(
                focus_ring(pre.show_sidebar, pre.show_terminal),
                pre.focused_pane,
                false,
            ),
            ..pre
        }),
    }
}

/// Whether `post` and `request` are what a key press makes of `pre` in
/// the pane that has the focus.
pub open spec fn pane_key_handled(pre: App, key: KeyEvent, post: App, request: Request) -> bool {
    match pre.focused_pane {
        Pane::FileTree => file_tree_key_handled(pre, key, post, request),
        Pane::Editor => editor_stepped(editor_step(key), key, pre, post) && editor_asks(
            editor_step(key),
            pre,
            request,
        ),
        Pane::Terminal => terminal_key_handled(pre, key, post, request),
    }
}

/// Whether `post` and `request` are what a key press makes of `pre`
/// while neither a dialog nor the search bar nor a menu is open.
pub open spec fn plain_key_handled(pre: App, key: KeyEvent, post: App, request: Request) -> bool {
    match shortcut(pre.focused_pane, key) {
        Some(s) => shortcut_done(s, pre, post, request),
        None => pane_key_handled(pre, key, post, request),
    }
}

/// Whether `post` and `request` are what a key press makes of `pre`
/// while the dialog `dialog` is open.
pub open spec fn dialog_key_handled(
    pre: App,
    dialog: Dialog,
    key: KeyEvent,
    post: App,
    request: Request,
) -> bool {
    exists|after: Dialog, outcome: DialogOutcome|
        #![trigger dialog_key(dialog, key, after, outcome)]
        dialog_key(dialog, key, after, outcome) && dialog_done(
            App { dialog: Some(after), ..pre },
            outcome,
            post,
            request,
        )
}

/// Whether `post` and `request` are what a key press makes of `pre`
/// while the menu `menu` is open: Escape closes it, Left and Right go to
/// the menus beside it, Up and Down move the selection past the
/// separators, Enter chooses the selected item, and any other key closes
/// the menu and is then handled as if no menu had been open.
pub open spec fn menu_key_handled(
    pre: App,
    menu: usize,
    key: KeyEvent,
    post: App,
    request: Request,
) -> bool {
    let closed = App { menu_open: None, menu_selected: None, ..pre };
    match key.code {
        KeyCode::Esc => request == Request::Nothing && post == closed,
        KeyCode::Left => request == Request::Nothing && post == (App {
            menu_open: Some(prev_menu_index(menu)),
            menu_selected: Some(0usize),
            ..pre
        }),
        KeyCode::Right => request == Request::Nothing && post == (App {
            menu_open: Some(next_menu_index(menu)),
            menu_selected: Some(0usize),
            ..pre
        }),
        KeyCode::Up => request == Request::Nothing && match pre.menu_selected {
            Some(sel) => if menu < MENU_COUNT {
                post == (App { menu_selected: post.menu_selected, ..pre })
                    && post.menu_selected.is_some() && is_step_up(
                    menu_actions(menu as int),
                    sel as int,
                    post.menu_selected.unwrap() as int,
                )
            } else {
                post == pre
            },
            None => post == pre,
        },
        KeyCode::Down => request == Request::Nothing && match pre.menu_selected {
            Some(sel) => if menu < MENU_COUNT {
                post == (App { menu_selected: post.menu_selected, ..pre })
                    && post.menu_selected.is_some() && is_step_down(
                    menu_actions(menu as int),
                    sel as int,
                    post.menu_selected.unwrap() as int,
                )
            } else {
                post == pre
            },
            None => post == pre,
        },
        KeyCode::Enter => menu_action_executed(pre, post, request),
        _ => plain_key_handled(closed, key, post, request),
    }
}

/// Whether `post` and `request` are what a key press makes of `pre`.
///
/// An open dialog takes every key. Else the search bar does while it is
/// active, and asks for nothing. Else an open menu does. Else the key is
/// a shortcut or is left to the pane that has the focus.
pub open spec fn key_handled(pre: App, key: KeyEvent, post: App, request: Request) -> bool {
    match pre.dialog {
        Some(dialog) => dialog_key_handled(pre, dialog, key, post, request),
        None => if pre.search.active {
            request == Request::Nothing && search_stepped(search_step(pre.search, key), pre, post)
        } else {
            match pre.menu_open {
                Some(menu) => menu_key_handled(pre, menu, key, post, request),
                None => plain_key_handled(pre, key, post, request),
            }
        },
    }
}

/// Whether exactly these of Shift, Control and Alt are held.
fn held_exactly(m: KeyModifiers, shift: bool, control: bool, alt: bool) -> (r: bool)
    ensures
        r == holds_exactly(m, shift, control, alt),
{
    m.shift == shift && m.control == control && m.alt == alt && !m.super_key && !m.hyper
        && !m.meta
}

/// The shortcut a key press stands for.
pub fn decide_shortcut(focused: Pane, key: KeyEvent) -> (s: Option<Shortcut>)
    ensures
        s == shortcut(focused, key),
{
    let m = key.modifiers;
    let only_ctrl = held_exactly(m, false, true, false);
    let only_alt = held_exactly(m, false, false, true);
    let only_shift = held_exactly(m, true, false, false);
    let none = held_exactly(m, false, false, false);
    let in_terminal = match focused {
        Pane::Terminal => true,
        _ => false,
    };
    let in_editor = match focused {
        Pane::Editor => true,
        _ => false,
    };
    match key.code {
        KeyCode::F(n) => if n == 10 {
            Some(Shortcut::OpenMenu)
        } else if none && n == 3 {
            Some(Shortcut::FocusFileTree)
        } else if none && n == 2 {
            Some(Shortcut::FocusEditor)
        } else if none && n == 4 {
            Some(Shortcut::FocusTerminal)
        } else {
            None
        },
        KeyCode::Char(c) => if only_alt && c == 'f' {
            Some(Shortcut::OpenMenu)
        } else if only_ctrl && c == 'q' {
            Some(Shortcut::Quit)
        } else if only_ctrl && c == 'b' {
            Some(Shortcut::ToggleSidebar)
        } else if only_ctrl && c == 't' {
            Some(Shortcut::ToggleTerminal)
        } else if only_ctrl && c == 'e' {
            Some(Shortcut::ToggleEditor)
        } else if only_ctrl && c == 'g' {
            Some(Shortcut::GoToLine)
        } else if only_ctrl && c == 'n' && in_terminal {
            Some(Shortcut::NewTerminal)
        } else if only_ctrl && c == 'w' && in_terminal {
            Some(Shortcut::CloseTerminal)
        } else if only_alt && c == '.' && in_terminal {
            Some(Shortcut::NextTerminal)
        } else if only_alt && c == ',' && in_terminal {
            Some(Shortcut::PrevTerminal)
        } else if only_alt && '1' <= c && c <= '9' && in_terminal {
            let v: u32 = c as u32;
            Some(Shortcut::SwitchTerminal((v - 0x31) as usize))
        } else {
            None
        },
        KeyCode::Tab => if none && !in_editor {
            Some(Shortcut::CycleFocusForward)
        } else {
            None
        },
        KeyCode::BackTab => if only_shift {
            Some(Shortcut::CycleFocusBackward)
        } else {
            None
        },
        _ => None,
    }
}

impl App {
    /// Handle keyboard events
    pub fn handle_key_event(&mut self, key: KeyEvent) -> (request: Request)
        requires
            old(self).wf(),
        ensures
            final(self).wf(),
            key_handled(*old(self), key, *final(self), request),
    {
        if self.dialog.is_some() {
            return self.handle_dialog_key(key);
        }
        if self.search.active {
            self.handle_search_key(key);
            return Request::Nothing;
        }
        if self.menu_open.is_some() {
            match key.code {
                KeyCode::Esc => {
                    self.close_menu();
                    return Request::Nothing;
                },
                KeyCode::Left => {
                    self.prev_menu();
                    return Request::Nothing;
                },
                KeyCode::Right => {
                    self.next_menu();
                    return Request::Nothing;
                },
                KeyCode::Up => {
                    self.menu_select_prev();
                    return Request::Nothing;
                },
                KeyCode::Down => {
                    self.menu_select_next();
                    return Request::Nothing;
                },
                KeyCode::Enter => {
                    return self.execute_menu_action();
                },
                _ => {
                    self.close_menu();
                },
            }
        }
        self.handle_plain_key(key)
    }

    /// Handles a key press while nothing is open that would take it.
    fn handle_plain_key(&mut self, key: KeyEvent) -> (request: Request)
        requires
            old(self).wf(),
        ensures
            final(self).wf(),
            plain_key_handled(*old(self), key, *final(self), request),
    {
        match decide_shortcut(self.focused_pane, key) {
            Some(s) => self.do_shortcut(s),
            None => self.handle_pane_key_event(key),
        }
    }

    /// Does what a shortcut stands for.
    pub fn do_shortcut(&mut self, s: Shortcut) -> (request: Request)
        requires
            old(self).wf(),
        ensures
            final(self).wf(),
            shortcut_done(s, *old(self), *final(self), request),
    {
        match s {
            Shortcut::OpenMenu => {
                self.open_menu(0);
                Request::Nothing
            },
            Shortcut::Quit => {
                self.should_quit = true;
                Request::Nothing
            },
            Shortcut::ToggleSidebar => {
                self.show_sidebar = !self.show_sidebar;
                Request::Nothing
            },
            Shortcut::ToggleTerminal => {
                self.show_terminal = !self.show_terminal;
                Request::Nothing
            },
            Shortcut::ToggleEditor => {
                self.show_editor = !self.show_editor;
                Request::Nothing
            },
            Shortcut::FocusFileTree => {
                if self.show_sidebar {
                    self.focused_pane = Pane::FileTree;
                }
                Request::Nothing
            },
            Shortcut::FocusEditor => {
                self.focused_pane = Pane::Editor;
                Request::Nothing
            },
            Shortcut::FocusTerminal => {
                if self.show_terminal {
                    self.focused_pane = Pane::Terminal;
                }
                Request::Nothing
            },
            Shortcut::GoToLine => {
                self.show_go_to_line_dialog();
                Request::Nothing
            },
            Shortcut::NewTerminal => {
                self.show_terminal = true;
                if self.terminals.is_full() {
                    Request::Nothing
                } else {
                    Request::OpenTerminal
                }
            },
            Shortcut::CloseTerminal => self.close_active_terminal(),
            Shortcut::NextTerminal => {
                self.next_terminal();
                Request::Nothing
            },
            Shortcut::PrevTerminal => {
                self.prev_terminal();
                Request::Nothing
            },
            Shortcut::SwitchTerminal(index) => {
                self.switch_terminal(index);
                Request::Nothing
            },
            Shortcut::CycleFocusForward => {
                self.cycle_focus(true);
                Request::Nothing
            },
            Shortcut::CycleFocusBackward => {
                self.cycle_focus(false);
                Request::Nothing
            },
        }
    }

    /// Handle key events for the currently focused pane
    pub fn handle_pane_key_event(&mut self, key: KeyEvent) -> (request: Request)
        requires
            old(self).wf(),
        ensures
            final(self).wf(),
            pane_key_handled(*old(self), key, *final(self), request),
    {
        match self.focused_pane {
            Pane::FileTree => self.handle_file_tree_key(key),
            Pane::Editor => self.handle_editor_key(key),
            Pane::Terminal => self.handle_terminal_key(key),
        }
    }
}

} // verus!
