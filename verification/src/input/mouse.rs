//! Mouse events and the actions they stand for.

use vstd::prelude::*;

verus! {

/// A mouse button.
#[derive(Debug, Clone, Copy, PartialEq, Eq, Structural)]
pub enum MouseButton {
    Left,
    Right,
    Middle,
}

/// What the mouse did.
#[derive(Debug, Clone, Copy, PartialEq, Eq, Structural)]
pub enum MouseEventKind {
    Down(MouseButton),
    Up(MouseButton),
    Drag(MouseButton),
    Moved,
    ScrollDown,
    ScrollUp,
    ScrollLeft,
    ScrollRight,
}

/// A raw mouse event: what happened, and in which cell.
#[derive(Debug, Clone, Copy, PartialEq, Eq, Structural)]
pub struct MouseEvent {
    pub kind: MouseEventKind,
    pub column: u16,
    pub row: u16,
}

/// The number of lines one notch of the wheel scrolls.
pub const SCROLL_AMOUNT: u16 = 3;

/// Represents a processed mouse action
#[derive(Debug, Clone, Copy, PartialEq, Eq, Structural)]
pub enum MouseAction {
    /// Single click at position
    Click { x: u16, y: u16 },
    /// Double click at position (select word)
    DoubleClick { x: u16, y: u16 },
    /// Triple click at position (select line)
    TripleClick { x: u16, y: u16 },
    /// Start dragging from position
    DragStart { x: u16, y: u16 },
    /// Continue dragging to position
    Drag { x: u16, y: u16 },
    /// Stop dragging at position
    DragEnd { x: u16, y: u16 },
    /// Right click (context menu)
    RightClick { x: u16, y: u16 },
    /// Middle click (often paste or close tab)
    MiddleClick { x: u16, y: u16 },
    /// Scroll up
    ScrollUp { x: u16, y: u16, amount: u16 },
    /// Scroll down
    ScrollDown { x: u16, y: u16, amount: u16 },
}

/// The action a raw mouse event stands for, if any. Only the left button
/// drags; releasing the other buttons, moving, and sideways scrolling mean
/// nothing.
pub open spec fn mouse_action(event: MouseEvent) -> Option<MouseAction> {
    let x = event.column;
    let y = event.row;
    match event.kind {
        MouseEventKind::Down(MouseButton::Left) => Some(MouseAction::Click { x, y }),
        MouseEventKind::Down(MouseButton::Right) => Some(MouseAction::RightClick { x, y }),
        MouseEventKind::Down(MouseButton::Middle) => Some(MouseAction::MiddleClick { x, y }),
        MouseEventKind::Up(MouseButton::Left) => Some(MouseAction::DragEnd { x, y }),
        MouseEventKind::Drag(MouseButton::Left) => Some(MouseAction::Drag { x, y }),
        MouseEventKind::ScrollUp => Some(MouseAction::ScrollUp { x, y, amount: SCROLL_AMOUNT }),
        MouseEventKind::ScrollDown => Some(MouseAction::ScrollDown { x, y, amount: SCROLL_AMOUNT }),
        _ => None,
    }
}

/// Maps a raw mouse event to a mouse action
pub fn map_mouse_event(event: MouseEvent) -> (action: Option<MouseAction>)
    ensures
        action == mouse_action(event),
{
    let x = event.column;
    let y = event.row;
    match event.kind {
        MouseEventKind::Down(MouseButton::Left) => Some(MouseAction::Click { x, y }),
        MouseEventKind::Down(MouseButton::Right) => Some(MouseAction::RightClick { x, y }),
        MouseEventKind::Down(MouseButton::Middle) => Some(MouseAction::MiddleClick { x, y }),
        MouseEventKind::Up(MouseButton::Left) => Some(MouseAction::DragEnd { x, y }),
        MouseEventKind::Drag(MouseButton::Left) => Some(MouseAction::Drag { x, y }),
        MouseEventKind::ScrollUp => Some(MouseAction::ScrollUp { x, y, amount: SCROLL_AMOUNT }),
        MouseEventKind::ScrollDown => Some(MouseAction::ScrollDown { x, y, amount: SCROLL_AMOUNT }),
        _ => None,
    }
}

} // verus!
