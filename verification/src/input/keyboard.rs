//! Key bindings: which key press stands for which command.

use vstd::prelude::*;
use crate::input::event::AppEvent;
use crate::terminal::keys::{KeyCode, KeyModifiers};

verus! {

/// A key press: the key and the modifiers held with it.
#[derive(Debug, Clone, Copy, PartialEq, Eq, Structural)]
pub struct KeyEvent {
    pub code: KeyCode,
    pub modifiers: KeyModifiers,
}

/// The value of a decimal digit character from `1` to `9`.
pub open spec fn digit_value(c: char) -> u8
    recommends
        '1' <= c && c <= '9',
{
    (c as u32 - 0x30) as u8
}

/// The command bound to a character key.
///
/// Where two bindings could apply, the one listed first wins: so Alt with
/// a digit selects a tab even when Control is held too.
pub open spec fn char_binding(c: char, ctrl: bool, shift: bool, alt: bool) -> Option<AppEvent> {
    if c == 'q' && ctrl && !shift {
        Some(AppEvent::Quit)
    } else if c == 'n' && ctrl && !shift {
        Some(AppEvent::NewFile)
    } else if c == 'o' && ctrl && !shift {
        Some(AppEvent::OpenFile)
    } else if c == 's' && ctrl && !shift {
        Some(AppEvent::Save)
    } else if (c == 's' || c == 'S') && ctrl && shift {
        Some(AppEvent::SaveAs)
    } else if c == 'w' && ctrl && !shift {
        Some(AppEvent::CloseFile)
    } else if (c == 'w' || c == 'W') && ctrl && shift {
        Some(AppEvent::CloseAllFiles)
    } else if c == 'z' && ctrl && !shift {
        Some(AppEvent::Undo)
    } else if c == 'y' && ctrl {
        Some(AppEvent::Redo)
    } else if c == 'x' && ctrl {
        Some(AppEvent::Cut)
    } else if c == 'c' && ctrl {
        Some(AppEvent::Copy)
    } else if c == 'v' && ctrl {
        Some(AppEvent::Paste)
    } else if c == 'a' && ctrl {
        Some(AppEvent::SelectAll)
    } else if c == 'k' && ctrl {
        Some(AppEvent::DeleteLine)
    } else if c == 'd' && ctrl {
        Some(AppEvent::DuplicateLine)
    } else if c == 'f' && ctrl {
        Some(AppEvent::Find)
    } else if c == 'g' && ctrl && !shift {
        Some(AppEvent::FindNext)
    } else if (c == 'g' || c == 'G') && ctrl && shift {
        Some(AppEvent::FindPrevious)
    } else if c == 'h' && ctrl {
        Some(AppEvent::Replace)
    } else if c == 'l' && ctrl {
        Some(AppEvent::GoToLine)
    } else if c == 'b' && ctrl {
        Some(AppEvent::GoToMatchingBrace)
    } else if '1' <= c && c <= '9' && alt {
        Some(AppEvent::GoToTab(digit_value(c)))
    } else if c == '0' && alt {
        Some(AppEvent::GoToTab(10))
    } else if c == 'B' && ctrl && shift {
        Some(AppEvent::ToggleSidebar)
    } else if c == 'T' && ctrl && shift {
        Some(AppEvent::ToggleTerminal)
    } else if (c == '+' || c == '=') && ctrl {
        Some(AppEvent::ZoomIn)
    } else if c == '-' && ctrl {
        Some(AppEvent::ZoomOut)
    } else if c == '0' && ctrl {
        Some(AppEvent::ZoomReset)
    } else {
        None
    }
}

/// The command bound to a key press, if any.
pub open spec fn key_binding(key: KeyEvent) -> Option<AppEvent> {
    let ctrl = key.modifiers.control;
    let shift = key.modifiers.shift;
    let alt = key.modifiers.alt;
    match key.code {
        KeyCode::Char(c) => char_binding(c, ctrl, shift, alt),
        KeyCode::Up => if alt {
            Some(AppEvent::MoveLineUp)
        } else {
            None
        },
        KeyCode::Down => if alt {
            Some(AppEvent::MoveLineDown)
        } else {
            None
        },
        KeyCode::F(n) => if n == 3 {
            if shift {
                Some(AppEvent::FindPrevious)
            } else {
                Some(AppEvent::FindNext)
            }
        } else if n == 2 {
            Some(AppEvent::FocusEditor)
        } else if n == 4 {
            Some(AppEvent::FocusTerminal)
        } else {
            None
        },
        KeyCode::PageDown => if ctrl {
            Some(AppEvent::NextTab)
        } else {
            None
        },
        KeyCode::PageUp => if ctrl {
            Some(AppEvent::PreviousTab)
        } else {
            None
        },
        KeyCode::Tab => if !ctrl && !shift && !alt {
            Some(AppEvent::CycleFocusForward)
        } else {
            None
        },
        KeyCode::BackTab => Some(AppEvent::CycleFocusBackward),
        _ => None,
    }
}

/// The command bound to a character key.
fn map_char(c: char, ctrl: bool, shift: bool, alt: bool) -> (event: Option<AppEvent>)
    ensures
        event == char_binding(c, ctrl, shift, alt),
{
    if c == 'q' && ctrl && !shift {
        Some(AppEvent::Quit)
    } else if c == 'n' && ctrl && !shift {
        Some(AppEvent::NewFile)
    } else if c == 'o' && ctrl && !shift {
        Some(AppEvent::OpenFile)
    } else if c == 's' && ctrl && !shift {
        Some(AppEvent::Save)
    } else if (c == 's' || c == 'S') && ctrl && shift {
        Some(AppEvent::SaveAs)
    } else if c == 'w' && ctrl && !shift {
        Some(AppEvent::CloseFile)
    } else if (c == 'w' || c == 'W') && ctrl && shift {
        Some(AppEvent::CloseAllFiles)
    } else if c == 'z' && ctrl && !shift {
        Some(AppEvent::Undo)
    } else if c == 'y' && ctrl {
        Some(AppEvent::Redo)
    } else if c == 'x' && ctrl {
        Some(AppEvent::Cut)
    } else if c == 'c' && ctrl {
        Some(AppEvent::Copy)
    } else if c == 'v' && ctrl {
        Some(AppEvent::Paste)
    } else if c == 'a' && ctrl {
        Some(AppEvent::SelectAll)
    } else if c == 'k' && ctrl {
        Some(AppEvent::DeleteLine)
    } else if c == 'd' && ctrl {
        Some(AppEvent::DuplicateLine)
    } else if c == 'f' && ctrl {
        Some(AppEvent::Find)
    } else if c == 'g' && ctrl && !shift {
        Some(AppEvent::FindNext)
    } else if (c == 'g' || c == 'G') && ctrl && shift {
        Some(AppEvent::FindPrevious)
    } else if c == 'h' && ctrl {
        Some(AppEvent::Replace)
    } else if c == 'l' && ctrl {
        Some(AppEvent::GoToLine)
    } else if c == 'b' && ctrl {
        Some(AppEvent::GoToMatchingBrace)
    } else if '1' <= c && c <= '9' && alt {
        let v: u32 = c as u32;
        Some(AppEvent::GoToTab((v - 0x30) as u8))
    } else if c == '0' && alt {
        Some(AppEvent::GoToTab(10))
    } else if c == 'B' && ctrl && shift {
        Some(AppEvent::ToggleSidebar)
    } else if c == 'T' && ctrl && shift {
        Some(AppEvent::ToggleTerminal)
    } else if (c == '+' || c == '=') && ctrl {
        Some(AppEvent::ZoomIn)
    } else if c == '-' && ctrl {
        Some(AppEvent::ZoomOut)
    } else if c == '0' && ctrl {
        Some(AppEvent::ZoomReset)
    } else {
        None
    }
}

/// Maps keyboard events to application events
pub fn map_key_event(key: KeyEvent) -> (event: Option<AppEvent>)
    ensures
        event == key_binding(key),
{
    let ctrl = key.modifiers.control;
    let shift = key.modifiers.shift;
    let alt = key.modifiers.alt;
    match key.code {
        KeyCode::Char(c) => map_char(c, ctrl, shift, alt),
        KeyCode::Up => if alt {
            Some(AppEvent::MoveLineUp)
        } else {
            None
        },
        KeyCode::Down => if alt {
            Some(AppEvent::MoveLineDown)
        } else {
            None
        },
        KeyCode::F(n) => if n == 3 {
            if shift {
                Some(AppEvent::FindPrevious)
            } else {
                Some(AppEvent::FindNext)
            }
        } else if n == 2 {
            Some(AppEvent::FocusEditor)
        } else if n == 4 {
            Some(AppEvent::FocusTerminal)
        } else {
            None
        },
        KeyCode::PageDown => if ctrl {
            Some(AppEvent::NextTab)
        } else {
            None
        },
        KeyCode::PageUp => if ctrl {
            Some(AppEvent::PreviousTab)
        } else {
            None
        },
        KeyCode::Tab => if !ctrl && !shift && !alt {
            Some(AppEvent::CycleFocusForward)
        } else {
            None
        },
        KeyCode::BackTab => Some(AppEvent::CycleFocusBackward),
        _ => None,
    }
}

} // verus!
