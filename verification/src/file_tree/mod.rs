//! The file tree shown in the sidebar.

pub mod order;
pub mod tree;

pub use tree::{DirNode, EntryKind, FileTree, FileTreeEntry};
