//! The file tree pane: which entry lies under a screen cell.

use vstd::prelude::*;
use crate::app::pointer::tree_entry_under;
use crate::app::App;

verus! {

/// Get the file tree entry index at a given screen position
pub fn entry_at_position(app: &App, x: u16, y: u16) -> (index: Option<usize>)
    ensures
        index == tree_entry_under(*app, x, y),
{
    app.get_file_tree_entry_at(x, y)
}

} // verus!
