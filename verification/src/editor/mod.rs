//! The text editor's state: cursor, selection and documents.

pub mod buffer;
pub mod cursor;
pub mod document;
pub mod filetype;
pub mod rope;

pub use buffer::Buffer;
pub use cursor::{Cursor, Selection};
pub use document::{Document, LineEnding};
