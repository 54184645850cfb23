//! What the mouse does.

use vstd::prelude::*;
use crate::app::editing::with_active_document;

use crate::app::find::active_of;
use crate::app::keys::tree_after_key;
use crate::app::menus::menu_action_executed;
use crate::app::pointer::{divider_at, editor_position_under, pane_under, tree_entry_under};
use crate::app::request::Request;
use crate::app::App;
use crate::editor::buffer::at_most;
use crate::editor::cursor::{Cursor, Selection};
use crate::editor::document::DocumentView;
use crate::file_tree::tree::{lemma_entry_views, FileTree, TreeView};
use crate::input::mouse::{MouseButton, MouseEvent, MouseEventKind};
use crate::terminal::keys::KeyCode;
use crate::terminal::registry::TerminalRegistry;
use crate::ui::layout::{held_between, minus, Pane, ResizeTarget};
use crate::ui::menu_bar::{is_menu_at, menu_in_positions, spec_item_at};

verus! {

/// The rows or lines one notch of the wheel scrolls.
pub const WHEEL_STEP: usize = 3;

/// The screen the mouse moves on, and where the mouse stands on it.
#[derive(Debug, Clone, Copy, PartialEq, Eq, Structural)]
pub struct Screen {
    /// The width of the screen in cells.
    pub cols: u16,
    /// The height of the screen in cells.
    pub rows: u16,
    /// How far across the screen the mouse is, in percent of the width.
    pub percent_across: u16,
    /// How far above the bottom of the screen the mouse is, in percent of
    /// the height.
    pub percent_up: u16,
}

/// The tree after the wheel moved its selection three entries.
pub open spec fn tree_wheeled(v: TreeView, up: bool) -> TreeView {
    let code = if up {
        KeyCode::Up
    } else {
        KeyCode::Down
    };
    tree_after_key(tree_after_key(tree_after_key(v, code), code), code)
}

/// The first visible line of a document after one notch of the wheel:
/// three lines on, but not above the first nor below the last.
pub open spec fn scrolled_by_wheel(d: DocumentView, up: bool) -> usize {
    if up {
        minus(d.scroll_y as int, WHEEL_STEP as int) as usize
    } else {
        at_most(d.scroll_y + WHEEL_STEP, d.last_line()) as usize
    }
}

/// The divider under a cell, if the size of the screen is known.
pub open spec fn divider_on(app: App, x: u16, y: u16, screen: Option<Screen>) -> Option<
    ResizeTarget,
> {
    match screen {
        Some(s) => divider_at(app, x, y, s.cols, s.rows),
        None => None,
    }
}

/// The pane under a cell, if the size of the screen is known.
pub open spec fn pane_on(app: App, x: u16, y: u16, screen: Option<Screen>) -> Option<Pane> {
    match screen {
        Some(s) => pane_under(app, x, y, s.cols, s.rows),
        None => None,
    }
}

/// Whether `post` is what a click on nothing in particular makes of
/// `pre`: a divider starts being dragged; an entry of the file tree is
/// selected and the tree takes the focus; a position in the editor gets
/// the cursor and the editor the focus; any other place gives its pane
/// the focus.
pub open spec fn clicked(pre: App, x: u16, y: u16, screen: Option<Screen>, post: App) -> bool {
    match divider_on(pre, x, y, screen) {
        Some(target) => post == (App { resizing: Some(target), ..pre }),
        None => match tree_entry_under(pre, x, y) {
            Some(index) => post == (App {
                focused_pane: Pane::FileTree,
                file_tree: FileTree { selected: index, ..pre.file_tree },
                ..pre
            }),
            None => match editor_position_under(pre, x, y) {
                Some((line, col)) => with_active_document(
                    App { focused_pane: Pane::Editor, ..pre },
                    active_of(pre)@.move_to(line, col, false),
                    post,
                ),
                None => post == match pane_on(pre, x, y, screen) {
                    Some(pane) => App { focused_pane: pane, ..pre },
                    None => pre,
                },
            },
        },
    }
}

/// The item of the open menu under row `row` of the screen, if the row
/// holds one that can be chosen: the items start two rows below the top.
pub open spec fn menu_item_under(menu: usize, row: u16) -> Option<usize> {
    if row >= 2 {
        spec_item_at(menu as int, row - 2)
    } else {
        None
    }
}

/// Whether `post` and `request` are what a press of the left button at
/// `(x, y)` makes of `pre`.
///
/// In the menu bar it opens the menu under it, or closes the open one.
/// On an item of the open menu it chooses the item. Anywhere else it
/// closes an open menu and then counts as a click.
pub open spec fn pressed(
    pre: App,
    x: u16,
    y: u16,
    screen: Option<Screen>,
    post: App,
    request: Request,
) -> bool {
    let closed = App { menu_open: None, menu_selected: None, ..pre };
    if y == 0 {
        request == Request::Nothing && exists|found: Option<usize>|
            #[trigger] is_menu_at(pre.menu_positions@, x, found) && post == match found {
                Some(menu) => if pre.menu_open == Some(menu) {
                    closed
                } else {
                    App { menu_open: Some(menu), menu_selected: Some(0usize), ..pre }
                },
                None => closed,
            }
    } else {
        match pre.menu_open {
            Some(menu) => match menu_item_under(menu, y) {
                Some(item) => menu_action_executed(
                    App { menu_selected: Some(item), ..pre },
                    post,
                    request,
                ),
                None => request == Request::Nothing && clicked(closed, x, y, screen, post),
            },
            None => request == Request::Nothing && clicked(pre, x, y, screen, post),
        }
    }
}

/// Whether `post` is what dragging with the left button to `(x, y)`
/// makes of `pre`: a divider that is being dragged gives its pane the
/// share the mouse stands at, if the size of the screen is known; else,
/// in the editor, the selection follows the mouse.
pub open spec fn dragged(pre: App, x: u16, y: u16, screen: Option<Screen>, post: App) -> bool {
    match pre.resizing {
        Some(ResizeTarget::Sidebar) => post == match screen {
            Some(s) => App {
                sidebar_width_percent: held_between(s.percent_across as int, 10, 50) as u16,
                ..pre
            },
            None => pre,
        },
        Some(ResizeTarget::Terminal) => post == match screen {
            Some(s) => App {
                terminal_height_percent: held_between(s.percent_up as int, 10, 70) as u16,
                ..pre
            },
            None => pre,
        },
        None => if pre.focused_pane == Pane::Editor {
            match editor_position_under(pre, x, y) {
                Some((line, col)) => {
                    let d = active_of(pre)@;
                    let cursor = Cursor { line, col, wanted_col: d.cursor.wanted_col };
                    with_active_document(
                        pre,
                        DocumentView {
                            cursor,
                            selection: Selection { anchor: d.selection.anchor, head: cursor },
                            ..d
                        },
                        post,
                    )
                },
                None => post == pre,
            }
        } else {
            post == pre
        },
    }
}

/// Whether `post` is what one notch of the wheel makes of `pre`, in the
/// pane that has the focus.
pub open spec fn wheeled(pre: App, up: bool, post: App) -> bool {
    match pre.focused_pane {
        Pane::FileTree => {
            &&& post == (App { file_tree: post.file_tree, ..pre })
            &&& post.file_tree@ == tree_wheeled(pre.file_tree@, up)
            &&& post.file_tree.entries == pre.file_tree.entries
        },
        Pane::Editor => with_active_document(
            pre,
            DocumentView { scroll_y: scrolled_by_wheel(active_of(pre)@, up), ..active_of(pre)@ },
            post,
        ),
        Pane::Terminal => {
            &&& post == (App {
                terminals: TerminalRegistry {
                    terminals: post.terminals.terminals,
                    ..pre.terminals
                },
                ..pre
            })
            &&& post.terminals.terminals@.len() == pre.terminals.terminals@.len()
            &&& forall|i: int|
                0 <= i < pre.terminals.terminals@.len() && i != pre.terminals.active
                    ==> #[trigger] post.terminals.terminals@[i] == pre.terminals.terminals@[i]
            &&& pre.terminals@.sessions.len() > 0 ==> post.terminals.terminals@[pre.terminals.active as int]@
                == if up {
                pre.terminals.terminals@[pre.terminals.active as int]@.scroll_up(WHEEL_STEP as nat)
            } else {
                pre.terminals.terminals@[pre.terminals.active as int]@.scroll_down(
                    WHEEL_STEP as nat,
                )
            }
        },
    }
}

/// Whether `post` and `request` are what a mouse event makes of `pre`.
pub open spec fn mouse_handled(
    pre: App,
    mouse: MouseEvent,
    screen: Option<Screen>,
    post: App,
    request: Request,
) -> bool {
    match mouse.kind {
        MouseEventKind::Down(MouseButton::Left) => pressed(
            pre,
            mouse.column,
            mouse.row,
            screen,
            post,
            request,
        ),
        MouseEventKind::Up(MouseButton::Left) => request == Request::Nothing && post == (App {
            resizing: None,
            ..pre
        }),
        MouseEventKind::Drag(MouseButton::Left) => request == Request::Nothing && dragged(
            pre,
            mouse.column,
            mouse.row,
            screen,
            post,
        ),
        MouseEventKind::ScrollUp => request == Request::Nothing && wheeled(pre, true, post),
        MouseEventKind::ScrollDown => request == Request::Nothing && wheeled(pre, false, post),
        _ => request == Request::Nothing && post == pre,
    }
}

impl App {
    /// Handle mouse events
    pub fn handle_mouse_event(&mut self, mouse: MouseEvent, screen: Option<Screen>) -> (request:
        Request)
        requires
            old(self).wf(),
        ensures
            final(self).wf(),
            mouse_handled(*old(self), mouse, screen, *final(self), request),
    {
        match mouse.kind {
            MouseEventKind::Down(MouseButton::Left) => self.press(mouse.column, mouse.row, screen),
            MouseEventKind::Up(MouseButton::Left) => {
                self.resizing = None;
                Request::Nothing
            },
            MouseEventKind::Drag(MouseButton::Left) => {
                self.drag(mouse.column, mouse.row, screen);
                Request::Nothing
            },
            MouseEventKind::ScrollUp => {
                self.wheel(true);
                Request::Nothing
            },
            MouseEventKind::ScrollDown => {
                self.wheel(false);
                Request::Nothing
            },
            _ => Request::Nothing,
        }
    }

    /// A press of the left button.
    fn press(&mut self, x: u16, y: u16, screen: Option<Screen>) -> (request: Request)
        requires
            old(self).wf(),
        ensures
            final(self).wf(),
            pressed(*old(self), x, y, screen, *final(self), request),
    {
        if y == 0 {
            let found = menu_in_positions(&self.menu_positions, x);
            match found {
                Some(menu_idx) => {
                    let same = match self.menu_open {
                        Some(open) => open == menu_idx,
                        None => false,
                    };
                    if same {
                        self.close_menu();
                    } else {
                        self.open_menu(menu_idx);
                    }
                },
                None => {
                    self.close_menu();
                },
            }
            return Request::Nothing;
        }
        match self.menu_open {
            Some(menu_idx) => {
                if y >= 2 {
                    let item_row = (y - 2) as usize;
                    match crate::ui::menu_bar::item_at_position(menu_idx, item_row) {
                        Some(item) => {
                            self.menu_selected = Some(item);
                            return self.execute_menu_action();
                        },
                        None => {},
                    }
                }
                self.close_menu();
            },
            None => {},
        }
        self.click(x, y, screen);
        Request::Nothing
    }

    /// A click on nothing in particular.
    fn click(&mut self, x: u16, y: u16, screen: Option<Screen>)
        requires
            old(self).wf(),
        ensures
            final(self).wf(),
            clicked(*old(self), x, y, screen, *final(self)),
    {
        let divider = match screen {
            Some(s) => self.check_divider_click(x, y, s.cols, s.rows),
            None => None,
        };
        match divider {
            Some(target) => {
                self.resizing = Some(target);
                return ;
            },
            None => {},
        }
        match self.get_file_tree_entry_at(x, y) {
            Some(index) => {
                self.focused_pane = Pane::FileTree;
                self.file_tree.select_index(index);
                return ;
            },
            None => {},
        }
        match self.get_editor_position_at(x, y) {
            Some((line, col)) => {
                self.focused_pane = Pane::Editor;
                let active = self.active_doc;
                self.documents[active].move_to(line, col, false);
            },
            None => {
                match screen {
                    Some(s) => {
                        self.focus_pane_at(x, y, s.cols, s.rows);
                    },
                    None => {},
                }
            },
        }
    }

    /// Dragging with the left button.
    fn drag(&mut self, x: u16, y: u16, screen: Option<Screen>)
        requires
            old(self).wf(),
        ensures
            final(self).wf(),
            dragged(*old(self), x, y, screen, *final(self)),
    {
        match self.resizing {
            Some(ResizeTarget::Sidebar) => {
                match screen {
                    Some(s) => {
                        self.handle_resize_drag(ResizeTarget::Sidebar, s.percent_across);
                    },
                    None => {},
                }
            },
            Some(ResizeTarget::Terminal) => {
                match screen {
                    Some(s) => {
                        self.handle_resize_drag(ResizeTarget::Terminal, s.percent_up);
                    },
                    None => {},
                }
            },
            None => {
                match self.focused_pane {
                    Pane::Editor => {
                        match self.get_editor_position_at(x, y) {
                            Some((line, col)) => {
                                let active = self.active_doc;
                                self.documents[active].cursor.line = line;
                                self.documents[active].cursor.col = col;
                                self.documents[active].selection.head =
                                    self.documents[active].cursor;
                            },
                            None => {},
                        }
                    },
                    _ => {},
                }
            },
        }
    }

    /// One notch of the wheel.
    fn wheel(&mut self, up: bool)
        requires
            old(self).wf(),
        ensures
            final(self).wf(),
            wheeled(*old(self), up, *final(self)),
    {
        match self.focused_pane {
            Pane::FileTree => self.wheel_tree(up),
            Pane::Editor => self.wheel_editor(up),
            Pane::Terminal => self.wheel_terminal(up),
        }
    }

    /// One notch of the wheel over the file tree.
    fn wheel_tree(&mut self, up: bool)
        requires
            old(self).wf(),
        ensures
            final(self).wf(),
            *final(self) == (App { file_tree: final(self).file_tree, ..*old(self) }),
            final(self).file_tree@ == tree_wheeled(old(self).file_tree@, up),
            final(self).file_tree.entries == old(self).file_tree.entries,
    {
        // Reading the length tells that the number of entries fits a machine word.
        let shown = self.file_tree.entries.len();
        proof {
            lemma_entry_views(self.file_tree.entries@);
        }
        if up {
            self.file_tree.move_up();
            self.file_tree.move_up();
            self.file_tree.move_up();
        } else {
            self.file_tree.move_down();
            self.file_tree.move_down();
            self.file_tree.move_down();
        }
    }

    /// One notch of the wheel over the editor.
    fn wheel_editor(&mut self, up: bool)
        requires
            old(self).wf(),
        ensures
            final(self).wf(),
            with_active_document(
                *old(self),
                DocumentView {
                    scroll_y: scrolled_by_wheel(active_of(*old(self))@, up),
                    ..active_of(*old(self))@
                },
                *final(self),
            ),
    {
        let active = self.active_doc;
        if up {
            self.documents[active].scroll_y = self.documents[active].scroll_y.saturating_sub(
                WHEEL_STEP,
            );
        } else {
            let max_scroll = self.documents[active].line_count() - 1;
            let target = self.documents[active].scroll_y.saturating_add(WHEEL_STEP);
            self.documents[active].scroll_y = if target <= max_scroll {
                target
            } else {
                max_scroll
            };
        }
    }

    /// One notch of the wheel over the terminal.
    fn wheel_terminal(&mut self, up: bool)
        requires
            old(self).wf(),
        ensures
            final(self).wf(),
            *final(self) == (App {
                terminals: TerminalRegistry {
                    terminals: final(self).terminals.terminals,
                    ..old(self).terminals
                },
                ..*old(self)
            }),
            final(self).terminals.terminals@.len() == old(self).terminals.terminals@.len(),
            forall|i: int|
                0 <= i < old(self).terminals.terminals@.len() && i != old(self).terminals.active
                    ==> #[trigger] final(self).terminals.terminals@[i] == old(self).terminals.terminals@[i],
            old(self).terminals@.sessions.len() > 0 ==> final(self).terminals.terminals@[old(self).terminals.active as int]@ == if up {
                old(self).terminals.terminals@[old(self).terminals.active as int]@.scroll_up(
                    WHEEL_STEP as nat,
                )
            } else {
                old(self).terminals.terminals@[old(self).terminals.active as int]@.scroll_down(
                    WHEEL_STEP as nat,
                )
            },
    {
        if self.terminals.terminals.len() > 0 {
            let active = self.terminals.active;
            if up {
                self.terminals.terminals[active].scroll_up(WHEEL_STEP);
            } else {
                self.terminals.terminals[active].scroll_down(WHEEL_STEP);
            }
            proof {
                self.lemma_one_terminal_changed(*old(self), active as int);
            }
        }
    }
}

} // verus!
