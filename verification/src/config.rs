//! Application configuration and its defaults.

use vstd::prelude::*;

verus! {

/// Application configuration
#[derive(Debug, Clone)]
pub struct Config {
    pub editor: EditorConfig,
    pub terminal: TerminalConfig,
    pub ui: UiConfig,
    pub file_tree: FileTreeConfig,
}

#[derive(Debug, Clone)]
pub struct EditorConfig {
    /// Tab width in spaces
    pub tab_width: usize,
    /// Use spaces instead of tabs
    pub insert_spaces: bool,
    /// Enable auto-indentation
    pub auto_indent: bool,
    /// Show line numbers
    pub show_line_numbers: bool,
    /// Highlight current line
    pub highlight_current_line: bool,
    /// Word wrap
    pub word_wrap: bool,
}

#[derive(Debug, Clone)]
pub struct TerminalConfig {
    /// Custom shell command (empty = use the user's shell)
    pub shell: String,
}

#[derive(Debug, Clone)]
pub struct UiConfig {
    /// Show sidebar
    pub show_sidebar: bool,
    /// Show terminal
    pub show_terminal: bool,
    /// Sidebar width percentage
    pub sidebar_width: u16,
    /// Terminal height percentage
    pub terminal_height: u16,
    /// Theme name
    pub theme: String,
}

#[derive(Debug, Clone)]
pub struct FileTreeConfig {
    /// Show hidden files
    pub show_hidden: bool,
    /// Follow current file in tree
    pub follow_current_file: bool,
}

/// The name of the theme used unless another is configured.
pub open spec fn default_theme_name() -> Seq<char> {
    seq!['d', 'a', 'r', 'k']
}

/// Tab width used where a configuration file gives none.
pub fn default_tab_width() -> (w: usize)
    ensures
        w == 4,
{
    4
}

/// The value of every switch that is on unless configured off.
pub fn default_true() -> (b: bool)
    ensures
        b,
{
    true
}

/// Sidebar width, in percent, used where a configuration file gives none.
pub fn default_sidebar_width() -> (w: u16)
    ensures
        w == 20,
{
    20
}

/// Terminal height, in percent, used where a configuration file gives none.
pub fn default_terminal_height() -> (h: u16)
    ensures
        h == 30,
{
    30
}

/// Theme name used where a configuration file gives none.
pub fn default_theme() -> (name: String)
    ensures
        name@ == default_theme_name(),
{
    proof {
        reveal_strlit("dark");
    }
    "dark".to_string()
}

impl EditorConfig {
    /// The editor settings of a fresh installation.
    pub open spec fn spec_default() -> EditorConfig {
        EditorConfig {
            tab_width: 4,
            insert_spaces: true,
            auto_indent: true,
            show_line_numbers: true,
            highlight_current_line: true,
            word_wrap: false,
        }
    }
}

impl Default for EditorConfig {
    fn default() -> (c: EditorConfig)
        ensures
            c == EditorConfig::spec_default(),
    {
        EditorConfig {
            tab_width: default_tab_width(),
            insert_spaces: true,
            auto_indent: true,
            show_line_numbers: true,
            highlight_current_line: true,
            word_wrap: false,
        }
    }
}

impl Default for TerminalConfig {
    fn default() -> (c: TerminalConfig)
        ensures
            c.shell@.len() == 0,
    {
        TerminalConfig { shell: String::new() }
    }
}

impl UiConfig {
    /// Everything is shown, the sidebar takes a fifth of the width, the
    /// terminal three tenths of the height, and the theme is the dark one.
    pub open spec fn is_default(self) -> bool {
        &&& self.show_sidebar
        &&& self.show_terminal
        &&& self.sidebar_width == 20
        &&& self.terminal_height == 30
        &&& self.theme@ == default_theme_name()
    }
}

impl Default for UiConfig {
    fn default() -> (c: UiConfig)
        ensures
            c.is_default(),
    {
        UiConfig {
            show_sidebar: true,
            show_terminal: true,
            sidebar_width: default_sidebar_width(),
            terminal_height: default_terminal_height(),
            theme: default_theme(),
        }
    }
}

impl FileTreeConfig {
    /// Hidden files stay hidden and the tree follows the current file.
    pub open spec fn spec_default() -> FileTreeConfig {
        FileTreeConfig { show_hidden: false, follow_current_file: true }
    }
}

impl Default for FileTreeConfig {
    fn default() -> (c: FileTreeConfig)
        ensures
            c == FileTreeConfig::spec_default(),
    {
        FileTreeConfig { show_hidden: false, follow_current_file: true }
    }
}

impl Config {
    /// Each section holds its defaults.
    pub open spec fn is_default(self) -> bool {
        &&& self.editor == EditorConfig::spec_default()
        &&& self.terminal.shell@.len() == 0
        &&& self.ui.is_default()
        &&& self.file_tree == FileTreeConfig::spec_default()
    }
}

impl Default for Config {
    fn default() -> (c: Config)
        ensures
            c.is_default(),
    {
        Config {
            editor: EditorConfig::default(),
            terminal: TerminalConfig::default(),
            ui: UiConfig::default(),
            file_tree: FileTreeConfig::default(),
        }
    }
}

} // verus!
