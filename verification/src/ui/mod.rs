//! The arithmetic of the user interface: where the panes lie and what lies
//! under a screen position. Nothing here draws.

pub mod dialog;
pub mod editor;
pub mod file_tree;
pub mod layout;
pub mod menu_bar;
pub mod search_bar;
pub mod terminal;

pub use layout::{Pane, Rect};
pub use menu_bar::MenuAction;
