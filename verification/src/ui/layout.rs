//! The screen layout: a menu bar on top, a status bar at the bottom, and
//! between them the sidebar on the left and the editor above the terminal
//! on the right.

use vstd::prelude::*;
use crate::app::App;

verus! {

/// A rectangle of screen cells.
#[derive(Debug, Clone, Copy, PartialEq, Eq, Structural)]
pub struct Rect {
    pub x: u16,
    pub y: u16,
    pub width: u16,
    pub height: u16,
}

impl Rect {
    /// Whether the cell `(x, y)` lies in the rectangle.
    pub open spec fn spec_contains(self, x: u16, y: u16) -> bool {
        self.x <= x && x < self.x + self.width && self.y <= y && y < self.y + self.height
    }

    /// Whether the cell `(x, y)` lies in the rectangle.
    #[verifier::when_used_as_spec(spec_contains)]
    pub fn contains(self, x: u16, y: u16) -> (inside: bool)
        ensures
            inside == self.spec_contains(x, y),
    {
        x >= self.x && x - self.x < self.width && y >= self.y && y - self.y < self.height
    }
}

/// Represents which pane is currently focused
#[derive(Debug, Clone, Copy, PartialEq, Eq, Structural)]
pub enum Pane {
    FileTree,
    Editor,
    Terminal,
}

/// Which divider is being resized
#[derive(Debug, Clone, Copy, PartialEq, Eq, Structural)]
pub enum ResizeTarget {
    /// Resizing the sidebar width (vertical divider)
    Sidebar,
    /// Resizing the terminal height (horizontal divider)
    Terminal,
}

/// Stores the calculated areas for hit testing
#[derive(Debug, Clone, Copy, PartialEq, Eq, Structural)]
pub struct LayoutAreas {
    pub file_tree: Option<Rect>,
    pub editor: Option<Rect>,
    pub terminal: Option<Rect>,
    pub sidebar_divider: Option<Rect>,
    pub terminal_divider: Option<Rect>,
}

impl Default for LayoutAreas {
    fn default() -> (areas: LayoutAreas)
        ensures
            areas == (LayoutAreas {
                file_tree: None,
                editor: None,
                terminal: None,
                sidebar_divider: None,
                terminal_divider: None,
            }),
    {
        LayoutAreas {
            file_tree: None,
            editor: None,
            terminal: None,
            sidebar_divider: None,
            terminal_divider: None,
        }
    }
}

/// The narrowest a sidebar may be.
pub const MIN_SIDEBAR_WIDTH: u16 = 15;

/// The width that is kept free for the editor beside the sidebar.
pub const MIN_MAIN_WIDTH: u16 = 40;

/// The lowest a terminal pane may be.
pub const MIN_TERMINAL_HEIGHT: u16 = 5;

/// The height that is kept free for the editor above the terminal.
pub const MIN_EDITOR_HEIGHT: u16 = 10;

/// `a - b`, or 0 if `b` is the greater.
pub open spec fn minus(a: int, b: int) -> int {
    if a >= b {
        a - b
    } else {
        0
    }
}

/// `value` raised to at least `low` and then cut to at most `high`.
pub open spec fn held_between(value: int, low: int, high: int) -> int {
    let raised = if value < low {
        low
    } else {
        value
    };
    if raised > high {
        high
    } else {
        raised
    }
}

/// `percent` hundredths of `total`, rounded down, and no more than a
/// `u16` holds.
pub open spec fn share(total: u16, percent: u16) -> int {
    let part = total * percent / 100;
    if part > u16::MAX {
        u16::MAX as int
    } else {
        part
    }
}

/// The width of the sidebar on a screen `total_width` wide: its share of
/// the width, but at least `MIN_SIDEBAR_WIDTH` and leaving
/// `MIN_MAIN_WIDTH` for the rest, the latter winning on a narrow screen.
pub open spec fn spec_sidebar_width(total_width: u16, percent: u16) -> int {
    held_between(
        share(total_width, percent),
        MIN_SIDEBAR_WIDTH as int,
        minus(total_width as int, MIN_MAIN_WIDTH as int),
    )
}

/// The height of the terminal pane in a content area `content_height`
/// high: its share of the height, but at least `MIN_TERMINAL_HEIGHT` and
/// leaving `MIN_EDITOR_HEIGHT` for the editor, the latter winning on a low
/// screen.
pub open spec fn spec_terminal_height(content_height: u16, percent: u16) -> int {
    held_between(
        share(content_height, percent),
        MIN_TERMINAL_HEIGHT as int,
        minus(content_height as int, MIN_EDITOR_HEIGHT as int),
    )
}

/// `percent` hundredths of `total`.
fn share_of(total: u16, percent: u16) -> (part: u16)
    ensures
        part == share(total, percent),
{
    assert(total * percent <= 0xffff * 0xffff) by (nonlinear_arith)
        requires
            total <= 0xffff,
            percent <= 0xffff,
    ;
    let product: u32 = (total as u32) * (percent as u32);
    let part: u32 = product / 100;
    if part > 0xffff {
        0xffff
    } else {
        part as u16
    }
}

/// `value` raised to at least `low` and then cut to at most `high`.
fn hold_between(value: u16, low: u16, high: u16) -> (held: u16)
    ensures
        held == held_between(value as int, low as int, high as int),
{
    let raised = if value < low {
        low
    } else {
        value
    };
    if raised > high {
        high
    } else {
        raised
    }
}

/// The width of the sidebar on a screen `total_width` wide.
pub fn sidebar_width(total_width: u16, percent: u16) -> (width: u16)
    ensures
        width == spec_sidebar_width(total_width, percent),
{
    hold_between(
        share_of(total_width, percent),
        MIN_SIDEBAR_WIDTH,
        total_width.saturating_sub(MIN_MAIN_WIDTH),
    )
}

/// The height of the terminal pane in a content area `content_height`
/// high.
pub fn terminal_height(content_height: u16, percent: u16) -> (height: u16)
    ensures
        height == spec_terminal_height(content_height, percent),
{
    hold_between(
        share_of(content_height, percent),
        MIN_TERMINAL_HEIGHT,
        content_height.saturating_sub(MIN_EDITOR_HEIGHT),
    )
}

/// The number of decimal digits of `n`.
pub open spec fn decimal_digits(n: nat) -> nat
    decreases n,
{
    if n < 10 {
        1
    } else {
        decimal_digits(n / 10) + 1
    }
}

/// The width of the line number gutter for a document of `line_count`
/// lines: room for its largest line number, for four digits at least, and
/// for one space.
pub open spec fn spec_gutter_width(line_count: usize) -> nat {
    let digits = decimal_digits(line_count as nat);
    if digits < 4 {
        5
    } else {
        digits + 1
    }
}

/// Ten to the power of `k`.
pub open spec fn pow10(k: nat) -> nat
    decreases k,
{
    if k == 0 {
        1
    } else {
        10 * pow10((k - 1) as nat)
    }
}

/// A number below ten to the `k` has at most `k` decimal digits.
pub proof fn lemma_decimal_digits_below(n: nat, k: nat)
    requires
        k >= 1,
        n < pow10(k),
    ensures
        1 <= decimal_digits(n) <= k,
    decreases k,
{
    if n >= 10 {
        assert(pow10(1) == 10) by {
            reveal_with_fuel(pow10, 2);
        }
        lemma_decimal_digits_below(n / 10, (k - 1) as nat);
    }
}

/// A machine word has at most twenty decimal digits.
pub proof fn lemma_digits_of_usize(n: usize)
    ensures
        1 <= decimal_digits(n as nat) <= 20,
{
    assert(pow10(20) == 100000000000000000000) by {
        reveal_with_fuel(pow10, 21);
    }
    lemma_decimal_digits_below(n as nat, 20);
}

/// Calculate the width needed for line numbers
pub fn calculate_gutter_width(line_count: usize) -> (width: u16)
    ensures
        width == spec_gutter_width(line_count),
{
    let mut digits: u16 = 1;
    let mut rest: usize = line_count;
    proof {
        lemma_digits_of_usize(line_count);
        lemma_digits_of_usize(rest);
    }
    while rest >= 10
        invariant
            1 <= digits,
            decimal_digits(line_count as nat) == decimal_digits(rest as nat) + digits - 1,
            1 <= decimal_digits(rest as nat),
            decimal_digits(line_count as nat) <= 20,
        decreases rest,
    {
        rest = rest / 10;
        digits += 1;
        proof {
            lemma_digits_of_usize(rest);
        }
    }
    if digits < 4 {
        5
    } else {
        digits + 1
    }
}

/// The pane that contains the cell `(x, y)` of a screen that fills
/// `total_area`: none in the menu bar and the status bar; the file tree
/// left of the sidebar's edge; and right of it the editor down to the row
/// of the terminal's title line, the terminal below.
pub open spec fn pane_containing(app: App, x: u16, y: u16, total_area: Rect) -> Option<Pane> {
    if y == 0 || y >= minus(total_area.height as int, 1) {
        None
    } else if app.show_sidebar && x < spec_sidebar_width(
        total_area.width,
        app.sidebar_width_percent,
    ) {
        Some(Pane::FileTree)
    } else if app.show_terminal {
        let content_height = minus(total_area.height as int, 2);
        let editor_height = minus(
            minus(
                content_height,
                spec_terminal_height(content_height as u16, app.terminal_height_percent),
            ),
            1,
        );
        if y - 1 <= editor_height {
            Some(Pane::Editor)
        } else {
            Some(Pane::Terminal)
        }
    } else {
        Some(Pane::Editor)
    }
}

/// Determine which pane contains the given coordinates
pub fn pane_at_position(app: &App, x: u16, y: u16, total_area: Rect) -> (pane: Option<Pane>)
    ensures
        pane == pane_containing(*app, x, y, total_area),
{
    if y == 0 || y >= total_area.height.saturating_sub(1) {
        return None;
    }
    let content_y = y - 1;
    let content_height = total_area.height.saturating_sub(2);
    if app.show_sidebar {
        if x < sidebar_width(total_area.width, app.sidebar_width_percent) {
            return Some(Pane::FileTree);
        }
    }
    if app.show_terminal {
        let height = terminal_height(content_height, app.terminal_height_percent);
        let editor_height = content_height.saturating_sub(height).saturating_sub(1);
        if content_y <= editor_height {
            Some(Pane::Editor)
        } else {
            Some(Pane::Terminal)
        }
    } else {
        Some(Pane::Editor)
    }
}

} // verus!
