//! The colors of the user interface.

use vstd::prelude::*;
use crate::highlighting::Rgb;

verus! {

/// Color theme for the application
#[derive(Debug, Clone, Copy, PartialEq, Eq, Structural)]
pub struct Theme {
    /// Background color for the main UI
    pub bg: Rgb,
    /// Foreground (text) color
    pub fg: Rgb,
    /// Background for the sidebar/file tree
    pub sidebar_bg: Rgb,
    /// Background for the editor
    pub editor_bg: Rgb,
    /// Background for the terminal
    pub terminal_bg: Rgb,
    /// Background for the status bar
    pub statusbar_bg: Rgb,
    /// Foreground for the status bar
    pub statusbar_fg: Rgb,
    /// Background for the menu bar
    pub menubar_bg: Rgb,
    /// Foreground for the menu bar
    pub menubar_fg: Rgb,
    /// Background for the tab bar
    pub tabbar_bg: Rgb,
    /// Active tab background
    pub tab_active_bg: Rgb,
    /// Active tab foreground
    pub tab_active_fg: Rgb,
    /// Inactive tab background
    pub tab_inactive_bg: Rgb,
    /// Inactive tab foreground
    pub tab_inactive_fg: Rgb,
    /// Border color
    pub border: Rgb,
    /// Border color for focused pane
    pub border_focused: Rgb,
    /// Line number color
    pub line_number: Rgb,
    /// Current line number color
    pub line_number_current: Rgb,
    /// Current line highlight
    pub line_highlight: Rgb,
    /// Selection background
    pub selection_bg: Rgb,
    /// Cursor color
    pub cursor: Rgb,
    /// Directory color in file tree
    pub tree_dir: Rgb,
    /// File color in file tree
    pub tree_file: Rgb,
    /// Selected item in file tree
    pub tree_selected_bg: Rgb,
}

impl Theme {
    /// The colors of the dark theme.
    pub open spec fn spec_dark() -> Theme {
        Theme {
            bg: Rgb { r: 30, g: 30, b: 30 },
            fg: Rgb { r: 212, g: 212, b: 212 },
            sidebar_bg: Rgb { r: 37, g: 37, b: 38 },
            editor_bg: Rgb { r: 30, g: 30, b: 30 },
            terminal_bg: Rgb { r: 24, g: 24, b: 24 },
            statusbar_bg: Rgb { r: 0, g: 122, b: 204 },
            statusbar_fg: Rgb { r: 255, g: 255, b: 255 },
            menubar_bg: Rgb { r: 60, g: 60, b: 60 },
            menubar_fg: Rgb { r: 212, g: 212, b: 212 },
            tabbar_bg: Rgb { r: 45, g: 45, b: 45 },
            tab_active_bg: Rgb { r: 30, g: 30, b: 30 },
            tab_active_fg: Rgb { r: 255, g: 255, b: 255 },
            tab_inactive_bg: Rgb { r: 45, g: 45, b: 45 },
            tab_inactive_fg: Rgb { r: 150, g: 150, b: 150 },
            border: Rgb { r: 60, g: 60, b: 60 },
            border_focused: Rgb { r: 0, g: 122, b: 204 },
            line_number: Rgb { r: 133, g: 133, b: 133 },
            line_number_current: Rgb { r: 200, g: 200, b: 200 },
            line_highlight: Rgb { r: 40, g: 40, b: 40 },
            selection_bg: Rgb { r: 38, g: 79, b: 120 },
            cursor: Rgb { r: 255, g: 255, b: 255 },
            tree_dir: Rgb { r: 220, g: 220, b: 170 },
            tree_file: Rgb { r: 212, g: 212, b: 212 },
            tree_selected_bg: Rgb { r: 62, g: 62, b: 62 },
        }
    }

    /// Create the dark theme
    #[verifier::when_used_as_spec(spec_dark)]
    pub fn dark() -> (theme: Theme)
        ensures
            theme == Self::spec_dark(),
    {
        Theme {
            bg: Rgb { r: 30, g: 30, b: 30 },
            fg: Rgb { r: 212, g: 212, b: 212 },
            sidebar_bg: Rgb { r: 37, g: 37, b: 38 },
            editor_bg: Rgb { r: 30, g: 30, b: 30 },
            terminal_bg: Rgb { r: 24, g: 24, b: 24 },
            statusbar_bg: Rgb { r: 0, g: 122, b: 204 },
            statusbar_fg: Rgb { r: 255, g: 255, b: 255 },
            menubar_bg: Rgb { r: 60, g: 60, b: 60 },
            menubar_fg: Rgb { r: 212, g: 212, b: 212 },
            tabbar_bg: Rgb { r: 45, g: 45, b: 45 },
            tab_active_bg: Rgb { r: 30, g: 30, b: 30 },
            tab_active_fg: Rgb { r: 255, g: 255, b: 255 },
            tab_inactive_bg: Rgb { r: 45, g: 45, b: 45 },
            tab_inactive_fg: Rgb { r: 150, g: 150, b: 150 },
            border: Rgb { r: 60, g: 60, b: 60 },
            border_focused: Rgb { r: 0, g: 122, b: 204 },
            line_number: Rgb { r: 133, g: 133, b: 133 },
            line_number_current: Rgb { r: 200, g: 200, b: 200 },
            line_highlight: Rgb { r: 40, g: 40, b: 40 },
            selection_bg: Rgb { r: 38, g: 79, b: 120 },
            cursor: Rgb { r: 255, g: 255, b: 255 },
            tree_dir: Rgb { r: 220, g: 220, b: 170 },
            tree_file: Rgb { r: 212, g: 212, b: 212 },
            tree_selected_bg: Rgb { r: 62, g: 62, b: 62 },
        }
    }
}

} // verus!
