//! The menus: what they hold, and which item a step or a click lands on.

use vstd::prelude::*;
use crate::app::App;

verus! {

/// Menu actions that can be triggered
#[derive(Debug, Clone, Copy, PartialEq, Eq, Structural)]
pub enum MenuAction {
    // File menu
    NewFile,
    OpenFile,
    Save,
    SaveAs,
    SaveAll,
    Close,
    CloseAll,
    Quit,
    // Edit menu
    Undo,
    Redo,
    Cut,
    Copy,
    Paste,
    SelectAll,
    // Search menu
    Find,
    FindNext,
    FindPrevious,
    Replace,
    GoToLine,
    // View menu
    ToggleSidebar,
    ToggleEditor,
    ToggleTerminal,
    FocusEditor,
    FocusFileTree,
    FocusTerminal,
    // Terminal menu
    NewTerminal,
    CloseTerminal,
    NextTerminal,
    PrevTerminal,
    // Help menu
    About,
    // Separator (not a real action)
    Separator,
}

/// Menu item definition
#[derive(Debug, Clone, Copy)]
pub struct MenuItem {
    pub label: &'static str,
    pub shortcut: Option<&'static str>,
    pub action: MenuAction,
    pub enabled: bool,
}

/// The number of menus in the menu bar.
pub const MENU_COUNT: usize = 6;

/// The actions of the items of menu number `menu`, from top to bottom,
/// separators included; nothing for a number that names no menu.
pub open spec fn menu_actions(menu: int) -> Seq<MenuAction> {
    if menu == 0 {
        seq![
            MenuAction::NewFile,
            MenuAction::OpenFile,
            MenuAction::Separator,
            MenuAction::Save,
            MenuAction::SaveAs,
            MenuAction::SaveAll,
            MenuAction::Separator,
            MenuAction::Close,
            MenuAction::CloseAll,
            MenuAction::Separator,
            MenuAction::Quit,
        ]
    } else if menu == 1 {
        seq![
            MenuAction::Undo,
            MenuAction::Redo,
            MenuAction::Separator,
            MenuAction::Cut,
            MenuAction::Copy,
            MenuAction::Paste,
            MenuAction::Separator,
            MenuAction::SelectAll,
        ]
    } else if menu == 2 {
        seq![
            MenuAction::Find,
            MenuAction::FindNext,
            MenuAction::FindPrevious,
            MenuAction::Replace,
            MenuAction::Separator,
            MenuAction::GoToLine,
        ]
    } else if menu == 3 {
        seq![
            MenuAction::ToggleSidebar,
            MenuAction::ToggleEditor,
            MenuAction::ToggleTerminal,
            MenuAction::Separator,
            MenuAction::FocusFileTree,
            MenuAction::FocusTerminal,
        ]
    } else if menu == 4 {
        seq![
            MenuAction::NewTerminal,
            MenuAction::CloseTerminal,
            MenuAction::Separator,
            MenuAction::NextTerminal,
            MenuAction::PrevTerminal,
        ]
    } else if menu == 5 {
        seq![
            MenuAction::About,
        ]
    } else {
        Seq::empty()
    }
}

/// Whether an item with this action can be chosen: every item but a
/// separator.
pub open spec fn is_selectable(action: MenuAction) -> bool {
    action != MenuAction::Separator
}

/// The text shown for an action.
pub open spec fn label_text(action: MenuAction) -> Seq<char> {
    match action {
        MenuAction::NewFile => "New"@,
        MenuAction::OpenFile => "Open..."@,
        MenuAction::Save => "Save"@,
        MenuAction::SaveAs => "Save As..."@,
        MenuAction::SaveAll => "Save All"@,
        MenuAction::Close => "Close"@,
        MenuAction::CloseAll => "Close All"@,
        MenuAction::Quit => "Quit"@,
        MenuAction::Undo => "Undo"@,
        MenuAction::Redo => "Redo"@,
        MenuAction::Cut => "Cut"@,
        MenuAction::Copy => "Copy"@,
        MenuAction::Paste => "Paste"@,
        MenuAction::SelectAll => "Select All"@,
        MenuAction::Find => "Find..."@,
        MenuAction::FindNext => "Find Next"@,
        MenuAction::FindPrevious => "Find Previous"@,
        MenuAction::Replace => "Replace..."@,
        MenuAction::GoToLine => "Go to Line..."@,
        MenuAction::ToggleSidebar => "Toggle Sidebar"@,
        MenuAction::ToggleEditor => "Toggle Editor"@,
        MenuAction::ToggleTerminal => "Toggle Terminal"@,
        MenuAction::FocusEditor => "Focus Editor"@,
        MenuAction::FocusFileTree => "Focus File Tree"@,
        MenuAction::FocusTerminal => "Focus Terminal"@,
        MenuAction::NewTerminal => "New Terminal"@,
        MenuAction::CloseTerminal => "Close Terminal"@,
        MenuAction::NextTerminal => "Next Terminal"@,
        MenuAction::PrevTerminal => "Previous Terminal"@,
        MenuAction::About => "About gterm"@,
        MenuAction::Separator => "─────────"@,
    }
}

/// The text shown for an action.
pub fn action_label(action: MenuAction) -> (label: &'static str)
    ensures
        label@ == label_text(action),
{
    match action {
        MenuAction::NewFile => "New",
        MenuAction::OpenFile => "Open...",
        MenuAction::Save => "Save",
        MenuAction::SaveAs => "Save As...",
        MenuAction::SaveAll => "Save All",
        MenuAction::Close => "Close",
        MenuAction::CloseAll => "Close All",
        MenuAction::Quit => "Quit",
        MenuAction::Undo => "Undo",
        MenuAction::Redo => "Redo",
        MenuAction::Cut => "Cut",
        MenuAction::Copy => "Copy",
        MenuAction::Paste => "Paste",
        MenuAction::SelectAll => "Select All",
        MenuAction::Find => "Find...",
        MenuAction::FindNext => "Find Next",
        MenuAction::FindPrevious => "Find Previous",
        MenuAction::Replace => "Replace...",
        MenuAction::GoToLine => "Go to Line...",
        MenuAction::ToggleSidebar => "Toggle Sidebar",
        MenuAction::ToggleEditor => "Toggle Editor",
        MenuAction::ToggleTerminal => "Toggle Terminal",
        MenuAction::FocusEditor => "Focus Editor",
        MenuAction::FocusFileTree => "Focus File Tree",
        MenuAction::FocusTerminal => "Focus Terminal",
        MenuAction::NewTerminal => "New Terminal",
        MenuAction::CloseTerminal => "Close Terminal",
        MenuAction::NextTerminal => "Next Terminal",
        MenuAction::PrevTerminal => "Previous Terminal",
        MenuAction::About => "About gterm",
        MenuAction::Separator => "─────────",
    }
}

/// The keyboard shortcut shown beside an action, if it has one.
pub open spec fn shortcut_text(action: MenuAction) -> Option<Seq<char>> {
    match action {
        MenuAction::NewFile => Some("Ctrl+N"@),
        MenuAction::OpenFile => Some("Ctrl+O"@),
        MenuAction::Save => Some("Ctrl+S"@),
        MenuAction::SaveAs => Some("Ctrl+Shift+S"@),
        MenuAction::SaveAll => None,
        MenuAction::Close => Some("Ctrl+W"@),
        MenuAction::CloseAll => None,
        MenuAction::Quit => Some("Ctrl+Q"@),
        MenuAction::Undo => Some("Ctrl+Z"@),
        MenuAction::Redo => Some("Ctrl+Y"@),
        MenuAction::Cut => Some("Ctrl+X"@),
        MenuAction::Copy => Some("Ctrl+C"@),
        MenuAction::Paste => Some("Ctrl+V"@),
        MenuAction::SelectAll => Some("Ctrl+A"@),
        MenuAction::Find => Some("Ctrl+F"@),
        MenuAction::FindNext => Some("F3"@),
        MenuAction::FindPrevious => Some("Shift+F3"@),
        MenuAction::Replace => Some("Ctrl+H"@),
        MenuAction::GoToLine => Some("Ctrl+L"@),
        MenuAction::ToggleSidebar => Some("Ctrl+B"@),
        MenuAction::ToggleEditor => Some("Ctrl+E"@),
        MenuAction::ToggleTerminal => Some("Ctrl+T"@),
        MenuAction::FocusEditor => Some("F2"@),
        MenuAction::FocusFileTree => Some("F3"@),
        MenuAction::FocusTerminal => Some("F4"@),
        MenuAction::NewTerminal => Some("Ctrl+N"@),
        MenuAction::CloseTerminal => Some("Ctrl+W"@),
        MenuAction::NextTerminal => Some("Alt+."@),
        MenuAction::PrevTerminal => Some("Alt+,"@),
        MenuAction::About => None,
        MenuAction::Separator => None,
    }
}

/// The text of an optional string slice.
pub open spec fn slice_text(s: Option<&'static str>) -> Option<Seq<char>> {
    match s {
        Some(t) => Some(t@),
        None => None,
    }
}

/// The keyboard shortcut shown beside an action, if it has one.
pub fn action_shortcut(action: MenuAction) -> (shortcut: Option<&'static str>)
    ensures
        slice_text(shortcut) == shortcut_text(action),
{
    match action {
        MenuAction::NewFile => Some("Ctrl+N"),
        MenuAction::OpenFile => Some("Ctrl+O"),
        MenuAction::Save => Some("Ctrl+S"),
        MenuAction::SaveAs => Some("Ctrl+Shift+S"),
        MenuAction::SaveAll => None,
        MenuAction::Close => Some("Ctrl+W"),
        MenuAction::CloseAll => None,
        MenuAction::Quit => Some("Ctrl+Q"),
        MenuAction::Undo => Some("Ctrl+Z"),
        MenuAction::Redo => Some("Ctrl+Y"),
        MenuAction::Cut => Some("Ctrl+X"),
        MenuAction::Copy => Some("Ctrl+C"),
        MenuAction::Paste => Some("Ctrl+V"),
        MenuAction::SelectAll => Some("Ctrl+A"),
        MenuAction::Find => Some("Ctrl+F"),
        MenuAction::FindNext => Some("F3"),
        MenuAction::FindPrevious => Some("Shift+F3"),
        MenuAction::Replace => Some("Ctrl+H"),
        MenuAction::GoToLine => Some("Ctrl+L"),
        MenuAction::ToggleSidebar => Some("Ctrl+B"),
        MenuAction::ToggleEditor => Some("Ctrl+E"),
        MenuAction::ToggleTerminal => Some("Ctrl+T"),
        MenuAction::FocusEditor => Some("F2"),
        MenuAction::FocusFileTree => Some("F3"),
        MenuAction::FocusTerminal => Some("F4"),
        MenuAction::NewTerminal => Some("Ctrl+N"),
        MenuAction::CloseTerminal => Some("Ctrl+W"),
        MenuAction::NextTerminal => Some("Alt+."),
        MenuAction::PrevTerminal => Some("Alt+,"),
        MenuAction::About => None,
        MenuAction::Separator => None,
    }
}

/// The title of menu number `menu`, if there is such a menu.
pub open spec fn title_text(menu: int) -> Option<Seq<char>> {
    if menu == 0 {
        Some("File"@)
    } else if menu == 1 {
        Some("Edit"@)
    } else if menu == 2 {
        Some("Search"@)
    } else if menu == 3 {
        Some("View"@)
    } else if menu == 4 {
        Some("Terminal"@)
    } else if menu == 5 {
        Some("Help"@)
    } else {
        None
    }
}

/// The title of a menu, if there is a menu of that number.
pub fn menu_title(menu_idx: usize) -> (title: Option<&'static str>)
    ensures
        title.is_some() == (menu_idx < MENU_COUNT),
        slice_text(title) == title_text(menu_idx as int),
{
    if menu_idx == 0 {
        Some("File")
    } else if menu_idx == 1 {
        Some("Edit")
    } else if menu_idx == 2 {
        Some("Search")
    } else if menu_idx == 3 {
        Some("View")
    } else if menu_idx == 4 {
        Some("Terminal")
    } else if menu_idx == 5 {
        Some("Help")
    } else {
        None
    }
}

/// The actions of the items of a menu, from top to bottom.
pub fn menu_action_list(menu_idx: usize) -> (actions: Vec<MenuAction>)
    ensures
        actions@ == menu_actions(menu_idx as int),
        menu_idx < MENU_COUNT ==> actions@.len() > 0,
        menu_idx >= MENU_COUNT ==> actions@.len() == 0,
{
    let actions = menu_action_table(menu_idx);
    actions
}

/// The table behind `menu_action_list`.
fn menu_action_table(menu_idx: usize) -> (actions: Vec<MenuAction>)
    ensures
        actions@.len() == menu_actions(menu_idx as int).len(),
        forall|i: int| 0 <= i < actions@.len() ==> actions@[i] == menu_actions(menu_idx as int)[i],
{
    if menu_idx == 0 {
        vec![
            MenuAction::NewFile,
            MenuAction::OpenFile,
            MenuAction::Separator,
            MenuAction::Save,
            MenuAction::SaveAs,
            MenuAction::SaveAll,
            MenuAction::Separator,
            MenuAction::Close,
            MenuAction::CloseAll,
            MenuAction::Separator,
            MenuAction::Quit,
        ]
    } else if menu_idx == 1 {
        vec![
            MenuAction::Undo,
            MenuAction::Redo,
            MenuAction::Separator,
            MenuAction::Cut,
            MenuAction::Copy,
            MenuAction::Paste,
            MenuAction::Separator,
            MenuAction::SelectAll,
        ]
    } else if menu_idx == 2 {
        vec![
            MenuAction::Find,
            MenuAction::FindNext,
            MenuAction::FindPrevious,
            MenuAction::Replace,
            MenuAction::Separator,
            MenuAction::GoToLine,
        ]
    } else if menu_idx == 3 {
        vec![
            MenuAction::ToggleSidebar,
            MenuAction::ToggleEditor,
            MenuAction::ToggleTerminal,
            MenuAction::Separator,
            MenuAction::FocusFileTree,
            MenuAction::FocusTerminal,
        ]
    } else if menu_idx == 4 {
        vec![
            MenuAction::NewTerminal,
            MenuAction::CloseTerminal,
            MenuAction::Separator,
            MenuAction::NextTerminal,
            MenuAction::PrevTerminal,
        ]
    } else if menu_idx == 5 {
        vec![
            MenuAction::About,
        ]
    } else {
        Vec::new()
    }
}

/// The items of a menu, from top to bottom; none for a number that names
/// no menu. Every item but a separator is enabled.
pub fn menu_items(menu_idx: usize) -> (items: Vec<MenuItem>)
    ensures
        items@.len() == menu_actions(menu_idx as int).len(),
        forall|i: int|
            0 <= i < items@.len() ==> (#[trigger] items@[i]).action == menu_actions(
                menu_idx as int,
            )[i] && items@[i].enabled == is_selectable(items@[i].action) && items@[i].label@
                == label_text(items@[i].action) && slice_text(items@[i].shortcut)
                == shortcut_text(items@[i].action),
{
    let actions = menu_action_list(menu_idx);
    let mut items: Vec<MenuItem> = Vec::new();
    let mut i: usize = 0;
    while i < actions.len()
        invariant
            i <= actions@.len(),
            items@.len() == i,
            actions@ == menu_actions(menu_idx as int),
            forall|k: int|
                0 <= k < i ==> (#[trigger] items@[k]).action == actions@[k] && items@[k].enabled
                    == is_selectable(items@[k].action) && items@[k].label@ == label_text(
                    items@[k].action,
                ) && slice_text(items@[k].shortcut) == shortcut_text(items@[k].action),
        decreases actions@.len() - i,
    {
        let action = actions[i];
        let enabled = match action {
            MenuAction::Separator => false,
            _ => true,
        };
        items.push(
            MenuItem {
                label: action_label(action),
                shortcut: action_shortcut(action),
                action,
                enabled,
            },
        );
        i += 1;
    }
    items
}

/// The item that `item_at_position` finds for row `y` of a menu.
pub open spec fn spec_item_at(menu: int, y: int) -> Option<usize> {
    if 0 <= y < menu_actions(menu).len() && is_selectable(menu_actions(menu)[y]) {
        Some(y as usize)
    } else {
        None
    }
}

/// The item in row `y` of the open menu, if there is one that can be
/// chosen.
pub fn item_at_position(menu_idx: usize, y: usize) -> (item: Option<usize>)
    ensures
        item == spec_item_at(menu_idx as int, y as int),
{
    let actions = menu_action_list(menu_idx);
    if y < actions.len() {
        match actions[y] {
            MenuAction::Separator => None,
            _ => Some(y),
        }
    } else {
        None
    }
}

/// Whether `k` is where a step down from item `selected` lands: on the
/// next item that can be chosen, or, if there is none further down, on the
/// first that can be chosen at all; behind the last item if none can.
pub open spec fn is_step_down(actions: Seq<MenuAction>, selected: int, k: int) -> bool {
    if exists|j: int| selected < j < actions.len() && is_selectable(#[trigger] actions[j]) {
        &&& selected < k < actions.len()
        &&& is_selectable(actions[k])
        &&& forall|j: int| selected < j < k ==> !is_selectable(#[trigger] actions[j])
    } else {
        &&& 0 <= k <= actions.len()
        &&& k < actions.len() ==> is_selectable(actions[k])
        &&& forall|j: int| 0 <= j < k ==> !is_selectable(#[trigger] actions[j])
    }
}

/// The item a step down from item `selected` lands on.
pub fn step_down(actions: &Vec<MenuAction>, selected: usize) -> (next: usize)
    ensures
        is_step_down(actions@, selected as int, next as int),
{
    let len = actions.len();
    let mut next: usize = selected.saturating_add(1);
    while next < len
        invariant
            len == actions@.len(),
            selected < next || next == usize::MAX,
            forall|j: int| selected < j < next && j < len ==> !is_selectable(#[trigger] actions@[j]),
        decreases len - next,
    {
        match actions[next] {
            MenuAction::Separator => {},
            _ => {
                return next;
            },
        }
        next += 1;
    }
    next = 0;
    while next < len
        invariant
            len == actions@.len(),
            next <= len,
            forall|j: int| selected < j < len ==> !is_selectable(#[trigger] actions@[j]),
            forall|j: int| 0 <= j < next ==> !is_selectable(#[trigger] actions@[j]),
        decreases len - next,
    {
        match actions[next] {
            MenuAction::Separator => {},
            _ => {
                return next;
            },
        }
        next += 1;
    }
    next
}

/// Whether `k` is where a step up from item `selected` lands: on the
/// nearest item above that can be chosen (from the first item, above
/// means the last, as it does from a place behind the menu); if the
/// search reaches a separator in the first row, it starts again from the
/// last item.
pub open spec fn is_step_up(actions: Seq<MenuAction>, selected: int, k: int) -> bool {
    let start = if selected == 0 || selected > actions.len() {
        actions.len() - 1
    } else {
        selected - 1
    };
    if exists|j: int| 0 <= j <= start && is_selectable(#[trigger] actions[j]) {
        &&& 0 <= k <= start
        &&& is_selectable(actions[k])
        &&& forall|j: int| k < j <= start ==> !is_selectable(#[trigger] actions[j])
    } else {
        &&& 0 <= k < actions.len()
        &&& k > 0 ==> is_selectable(actions[k])
        &&& forall|j: int| k < j < actions.len() ==> !is_selectable(#[trigger] actions[j])
    }
}

/// The item a step up from item `selected` lands on.
pub fn step_up(actions: &Vec<MenuAction>, selected: usize) -> (prev: usize)
    requires
        actions@.len() > 0,
    ensures
        is_step_up(actions@, selected as int, prev as int),
{
    let len = actions.len();
    let start = if selected == 0 || selected > len {
        len - 1
    } else {
        selected - 1
    };
    let mut prev: usize = start;
    while prev > 0 && !selectable(actions[prev])
        invariant
            len == actions@.len(),
            prev <= start < len,
            forall|j: int| prev < j <= start ==> !is_selectable(#[trigger] actions@[j]),
        decreases prev,
    {
        prev -= 1;
    }
    if !selectable(actions[prev]) {
        prev = len - 1;
        while prev > 0 && !selectable(actions[prev])
            invariant
                len == actions@.len(),
                prev < len,
                forall|j: int| 0 <= j <= start ==> !is_selectable(#[trigger] actions@[j]),
                forall|j: int| prev < j < len ==> !is_selectable(#[trigger] actions@[j]),
            decreases prev,
        {
            prev -= 1;
        }
    }
    prev
}

/// Whether an item with this action can be chosen.
pub fn selectable(action: MenuAction) -> (r: bool)
    ensures
        r == is_selectable(action),
{
    match action {
        MenuAction::Separator => false,
        _ => true,
    }
}

/// The menu after `menu`, the first after the last.
pub open spec fn next_menu_index(menu: usize) -> usize {
    ((menu + 1) % (MENU_COUNT as int)) as usize
}

/// The menu before `menu`, the last before the first.
pub open spec fn prev_menu_index(menu: usize) -> usize {
    if menu == 0 {
        (MENU_COUNT - 1) as usize
    } else {
        (menu - 1) as usize
    }
}

/// The screen columns a menu title takes in the menu bar, and the number
/// of the menu.
#[derive(Debug, Clone, Copy, PartialEq, Eq, Structural)]
pub struct MenuPosition {
    /// The first column of the title.
    pub start: u16,
    /// The column behind the last of the title.
    pub end: u16,
    /// The number of the menu.
    pub menu: usize,
}

/// Whether `found` is the menu whose title lies under column `x`: that of
/// the first position that holds `x`, if any does.
pub open spec fn is_menu_at(positions: Seq<MenuPosition>, x: u16, found: Option<usize>) -> bool {
    match found {
        Some(menu) => exists|i: int|
            0 <= i < positions.len() && (#[trigger] positions[i]).start <= x && x
                < positions[i].end && positions[i].menu == menu && forall|j: int|
                0 <= j < i ==> !((#[trigger] positions[j]).start <= x && x < positions[j].end),
        None => forall|j: int|
            0 <= j < positions.len() ==> !((#[trigger] positions[j]).start <= x && x
                < positions[j].end),
    }
}

/// The menu whose title lies under column `x` of the menu bar.
pub fn menu_in_positions(positions: &Vec<MenuPosition>, x: u16) -> (found: Option<usize>)
    ensures
        is_menu_at(positions@, x, found),
{
    let mut i: usize = 0;
    while i < positions.len()
        invariant
            i <= positions@.len(),
            forall|j: int|
                0 <= j < i ==> !((#[trigger] positions@[j]).start <= x && x < positions@[j].end),
        decreases positions@.len() - i,
    {
        let p = positions[i];
        if x >= p.start && x < p.end {
            return Some(p.menu);
        }
        i += 1;
    }
    None
}

/// The menu whose title lies under column `x` of the menu bar, as it was
/// last laid out.
pub fn menu_at_position(app: &App, x: u16) -> (found: Option<usize>)
    ensures
        is_menu_at(app.menu_positions@, x, found),
{
    menu_in_positions(&app.menu_positions, x)
}

/// The columns the title of menu `menu` takes in the menu bar: its
/// characters and a space before and behind.
pub open spec fn title_width(menu: int) -> int {
    match title_text(menu) {
        Some(title) => if title.len() > 98 {
            100int
        } else {
            title.len() as int + 2
        },
        None => 2int,
    }
}

/// Where the titles of the menus lie in the menu bar: one after the
/// other from the left edge, each with a space before and behind.
pub fn menu_bar_positions() -> (positions: Vec<MenuPosition>)
    ensures
        positions@.len() == MENU_COUNT,
        forall|i: int|
            0 <= i < positions@.len() ==> (#[trigger] positions@[i]).end - positions@[i].start
                == title_width(i),
        forall|i: int| 0 <= i < positions@.len() ==> (#[trigger] positions@[i]).menu == i,
        forall|i: int|
            0 <= i < positions@.len() ==> (#[trigger] positions@[i]).start <= positions@[i].end,
        forall|i: int|
            0 < i < positions@.len() ==> (#[trigger] positions@[i]).start == positions@[i - 1].end,
        positions@[0].start == 0,
{
    let mut positions: Vec<MenuPosition> = Vec::new();
    let mut x_offset: u16 = 0;
    let mut i: usize = 0;
    while i < MENU_COUNT
        invariant
            i <= MENU_COUNT,
            positions@.len() == i,
            x_offset <= 100 * i,
            forall|k: int| 0 <= k < i ==> (#[trigger] positions@[k]).menu == k,
            forall|k: int| 0 <= k < i ==> (#[trigger] positions@[k]).start <= positions@[k].end,
            forall|k: int|
                0 <= k < i ==> (#[trigger] positions@[k]).end - positions@[k].start == title_width(
                    k,
                ),
            forall|k: int| 0 < k < i ==> (#[trigger] positions@[k]).start == positions@[k - 1].end,
            i > 0 ==> positions@[0].start == 0 && positions@[i - 1].end == x_offset,
        decreases MENU_COUNT - i,
    {
        let title_len: usize = match menu_title(i) {
            Some(title) => title.unicode_len(),
            None => 0,
        };
        let width: u16 = if title_len > 98 {
            100
        } else {
            (title_len + 2) as u16
        };
        positions.push(MenuPosition { start: x_offset, end: x_offset + width, menu: i });
        x_offset = x_offset + width;
        i += 1;
    }
    positions
}

} // verus!
