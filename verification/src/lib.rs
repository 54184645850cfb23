//! The logic of gterm, a text editor with a file tree and terminals that
//! runs in a terminal, with a machine-checked contract on every function.
//!
//! - `terminal`: the key encoder, terminal sessions over a screen state,
//!   and the bounded registry that holds them.
//! - `editor`: text buffers, cursors, selections and documents.
//! - `search`, `file_tree`, `highlighting`, `input`, `config`, `theme`:
//!   the state around the editor.
//! - `ui`: menus, dialogs and the arithmetic of the layout.
//! - `app`: the state of the whole application and what keys and the
//!   mouse do to it.
//!
//! Nothing here reads or writes files, runs processes or draws. The owner
//! of the state does that, and hands the library what it found.

pub mod app;
pub mod config;
pub mod editor;
pub mod file_tree;
pub mod highlighting;
pub mod input;
pub mod search;
pub mod terminal;
pub mod text;
pub mod theme;
pub mod ui;
