//! The search bar below the editor.

use vstd::prelude::*;
use crate::app::App;

verus! {

/// Calculate the height of the search bar (0 if not active, 1 for find, 2 for replace)
pub fn height(app: &App) -> (rows: u16)
    ensures
        rows == if !app.search.active {
            0int
        } else if app.search.replace_mode {
            2int
        } else {
            1int
        },
{
    if !app.search.active {
        0
    } else if app.search.replace_mode {
        2
    } else {
        1
    }
}

} // verus!
