//! Input handling: key bindings, mouse actions and click counting.

pub mod clicks;
pub mod event;
pub mod keyboard;
pub mod mouse;

pub use clicks::InputHandler;
pub use event::AppEvent;
