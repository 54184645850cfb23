//! What lies under a screen position.

use vstd::prelude::*;
use crate::app::App;
use crate::editor::buffer::at_most;
use crate::ui::layout::{
    calculate_gutter_width, minus, sidebar_width, spec_gutter_width, spec_sidebar_width,
    spec_terminal_height, terminal_height, Pane, Rect, ResizeTarget,
};

verus! {

/// The row a content area starts in: the one below the menu bar.
pub const CONTENT_START_Y: u16 = 1;

/// The document position under the cell `(x, y)` of an editor that fills
/// `area` and shows a document of `lines` lines from row `scroll_y` and
/// column `scroll_x` on, behind a gutter for the line numbers; nothing
/// outside the area or in the gutter. The column is still to be held
/// within the line.
pub open spec fn editor_cell(
    area: Rect,
    lines: usize,
    scroll_y: usize,
    scroll_x: usize,
    x: u16,
    y: u16,
) -> Option<(int, int)> {
    let gutter = spec_gutter_width(lines);
    if area.spec_contains(x, y) && x >= area.x + gutter {
        Some(
            (
                at_most(scroll_y + (y - area.y), minus(lines as int, 1)),
                scroll_x + (x - area.x - gutter),
            ),
        )
    } else {
        None
    }
}

/// The column of the sidebar's right edge on a screen `cols` wide.
pub open spec fn sidebar_edge(app: App, cols: u16) -> int {
    spec_sidebar_width(cols, app.sidebar_width_percent)
}

/// The row of the terminal's title line on a screen `rows` high.
pub open spec fn terminal_edge(app: App, rows: u16) -> int {
    let content_end = minus(rows as int, 1);
    let content_height = minus(content_end, CONTENT_START_Y as int);
    minus(content_end, spec_terminal_height(content_height as u16, app.terminal_height_percent))
}

/// The divider under the cell `(x, y)` on a screen of `cols` by `rows`:
/// the sidebar's edge, with one cell to either side, between the menu bar
/// and the status bar; else the terminal's title line, with one cell
/// above and below, right of the sidebar.
pub open spec fn divider_at(app: App, x: u16, y: u16, cols: u16, rows: u16) -> Option<
    ResizeTarget,
> {
    let content_end = minus(rows as int, 1);
    let edge = sidebar_edge(app, cols);
    if app.show_sidebar && minus(edge, 1) <= x && x <= edge + 1 && CONTENT_START_Y <= y && y
        < content_end {
        Some(ResizeTarget::Sidebar)
    } else {
        let divider_y = terminal_edge(app, rows);
        let editor_start = if app.show_sidebar {
            edge
        } else {
            0
        };
        if app.show_terminal && minus(divider_y, 1) <= y && y <= divider_y + 1 && x
            >= editor_start {
            Some(ResizeTarget::Terminal)
        } else {
            None
        }
    }
}

/// The pane under the cell `(x, y)` on a screen of `cols` by `rows`;
/// none in the menu bar and the status bar.
pub open spec fn pane_under(app: App, x: u16, y: u16, cols: u16, rows: u16) -> Option<Pane> {
    if y == 0 || y >= minus(rows as int, 1) {
        None
    } else if app.show_sidebar && x < sidebar_edge(app, cols) {
        Some(Pane::FileTree)
    } else if app.show_terminal && y >= terminal_edge(app, rows) {
        Some(Pane::Terminal)
    } else {
        Some(Pane::Editor)
    }
}

/// The index of the file tree entry under the cell `(x, y)`, if the cell
/// lies in the file tree and there is an entry in its row.
pub open spec fn tree_entry_under(app: App, x: u16, y: u16) -> Option<usize> {
    match app.file_tree_area {
        Some(area) => if area.spec_contains(x, y) && app.file_tree.scroll_offset + (y - area.y)
            < app.file_tree.entries@.len() {
            Some((app.file_tree.scroll_offset + (y - area.y)) as usize)
        } else {
            None
        },
        None => None,
    }
}

/// The position in the active document under the cell `(x, y)`, if the
/// cell lies in the editor and not in its gutter. A cell below the text
/// stands for the last line, and one behind a line for its end.
pub open spec fn editor_position_under(app: App, x: u16, y: u16) -> Option<(usize, usize)> {
    match app.editor_area {
        Some(area) => if app.active_doc < app.documents@.len() {
            let doc = app.documents@[app.active_doc as int]@;
            match editor_cell(area, doc.lines() as usize, doc.scroll_y, doc.scroll_x, x, y) {
                Some((line, col)) => Some(
                    (line as usize, at_most(col, doc.line_len(line)) as usize),
                ),
                None => None,
            }
        } else {
            None
        },
        None => None,
    }
}

impl App {
    /// Get the file tree entry index at a screen position
    pub fn get_file_tree_entry_at(&self, x: u16, y: u16) -> (index: Option<usize>)
        ensures
            index == tree_entry_under(*self, x, y),
    {
        match self.file_tree_area {
            Some(area) => {
                if area.contains(x, y) {
                    let row = (y - area.y) as usize;
                    self.file_tree.index_at_row(row)
                } else {
                    None
                }
            },
            None => None,
        }
    }

    /// Get the editor document position at a screen position
    pub fn get_editor_position_at(&self, x: u16, y: u16) -> (pos: Option<(usize, usize)>)
        ensures
            pos == editor_position_under(*self, x, y),
    {
        let area = match self.editor_area {
            Some(area) => area,
            None => {
                return None;
            },
        };
        if !area.contains(x, y) {
            return None;
        }
        if self.active_doc >= self.documents.len() {
            return None;
        }
        let doc = &self.documents[self.active_doc];
        let lines = doc.line_count();
        let gutter_width = calculate_gutter_width(lines);
        if x - area.x < gutter_width {
            return None;
        }
        let screen_row = (y - area.y) as usize;
        let screen_col = (x - area.x - gutter_width) as usize;
        let line = doc.scroll_y.saturating_add(screen_row);
        let col = doc.scroll_x.saturating_add(screen_col);
        let line = if line <= lines - 1 {
            line
        } else {
            lines - 1
        };
        let len = doc.line_len(line);
        let col = if col <= len {
            col
        } else {
            len
        };
        Some((line, col))
    }

    /// Check if a click is on a pane divider
    pub fn check_divider_click(&self, x: u16, y: u16, cols: u16, rows: u16) -> (target: Option<
        ResizeTarget,
    >)
        ensures
            target == divider_at(*self, x, y, cols, rows),
    {
        let content_end_y = rows.saturating_sub(1);
        let edge = sidebar_width(cols, self.sidebar_width_percent);
        if self.show_sidebar {
            if x >= edge.saturating_sub(1) && (x as u32) <= (edge as u32) + 1 && y >= CONTENT_START_Y
                && y < content_end_y {
                return Some(ResizeTarget::Sidebar);
            }
        }
        if self.show_terminal {
            let content_height = content_end_y.saturating_sub(CONTENT_START_Y);
            let height = terminal_height(content_height, self.terminal_height_percent);
            let divider_y = content_end_y.saturating_sub(height);
            let editor_start_x = if self.show_sidebar {
                edge
            } else {
                0
            };
            if y >= divider_y.saturating_sub(1) && (y as u32) <= (divider_y as u32) + 1 && x
                >= editor_start_x {
                return Some(ResizeTarget::Terminal);
            }
        }
        None
    }

    /// Focus the pane at the given screen coordinates
    pub fn focus_pane_at(&mut self, x: u16, y: u16, cols: u16, rows: u16)
        ensures
            *final(self) == match pane_under(*old(self), x, y, cols, rows) {
                Some(pane) => App { focused_pane: pane, ..*old(self) },
                None => *old(self),
            },
    {
        match pane_at(self, x, y, cols, rows) {
            Some(pane) => {
                self.focused_pane = pane;
            },
            None => {},
        }
    }
}

/// The pane under the cell `(x, y)` on a screen of `cols` by `rows`.
pub fn pane_at(app: &App, x: u16, y: u16, cols: u16, rows: u16) -> (pane: Option<Pane>)
    ensures
        pane == pane_under(*app, x, y, cols, rows),
{
    let content_end_y = rows.saturating_sub(1);
    if y == 0 || y >= content_end_y {
        return None;
    }
    if app.show_sidebar {
        if x < sidebar_width(cols, app.sidebar_width_percent) {
            return Some(Pane::FileTree);
        }
    }
    if app.show_terminal {
        let content_height = content_end_y.saturating_sub(CONTENT_START_Y);
        let height = terminal_height(content_height, app.terminal_height_percent);
        let divider_y = content_end_y.saturating_sub(height);
        if y >= divider_y {
            Some(Pane::Terminal)
        } else {
            Some(Pane::Editor)
        }
    } else {
        Some(Pane::Editor)
    }
}

} // verus!
