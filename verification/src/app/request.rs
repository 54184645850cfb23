//! What the application asks of its owner.

use vstd::prelude::*;

verus! {

/// What the owner of the application state has to do after it handed over
/// a key press or a click. The state itself never reads or writes
/// anything.
#[derive(Debug, Clone, PartialEq, Eq)]
pub enum Request {
    /// Nothing.
    Nothing,
    /// Write these bytes to the pseudo-terminal of the active terminal.
    WriteToTerminal(Vec<u8>),
    /// Put this text on the clipboard.
    SetClipboard(String),
    /// Fetch the text on the clipboard and hand it to `paste`.
    Paste,
    /// Write the active document to its path and tell its `save` how that
    /// went.
    SaveActive,
    /// Write the active document to its path, tell its `save` how that
    /// went, and then read the root of the file tree again for its
    /// `refresh`.
    SaveActiveAndRefreshTree,
    /// Write every document that is modified and has a path, and tell the
    /// `save` of each how that went.
    SaveAll,
    /// Read the file at this path and hand it to `open_file`.
    OpenFile(String),
    /// Read the working directory and hand it to `show_open_dialog`.
    ShowOpenDialog,
    /// Read the directory of the active document, or the working directory
    /// if it has none, and hand it to `show_save_as_dialog`.
    ShowSaveAsDialog,
    /// Open a pseudo-terminal and tell `new_terminal` whether that worked.
    OpenTerminal,
    /// The terminal that had this index is gone: drop its pseudo-terminal.
    DropTerminal(usize),
    /// Read the directories that `file_tree.expanded_paths()` names, and the
    /// one at this path, and hand them to `toggle_tree_entry`.
    ToggleTreeEntry(String),
    /// Read the directory at this path and hand it to
    /// `dialog_enter_directory`.
    ReadDirectory(String),
    /// Read the directory above the one at this path, if there is one, and
    /// hand it to `dialog_go_up`.
    ReadParent(String),
    /// Find out what is at this path, read it if it is a directory, and
    /// hand that to `dialog_found`.
    LookUp(String),
}

/// The path a request names, if it names one.
pub open spec fn request_path(request: Request) -> Option<Seq<char>> {
    match request {
        Request::OpenFile(p) => Some(p@),
        Request::ToggleTreeEntry(p) => Some(p@),
        Request::ReadDirectory(p) => Some(p@),
        Request::ReadParent(p) => Some(p@),
        Request::LookUp(p) => Some(p@),
        _ => None,
    }
}

/// The text a request puts on the clipboard, if it is such a request.
pub open spec fn clipboard_text(request: Request) -> Option<Seq<char>> {
    match request {
        Request::SetClipboard(text) => Some(text@),
        _ => None,
    }
}

/// The bytes of a request to write to the terminal, if it is one.
pub open spec fn written_bytes(request: Request) -> Option<Seq<u8>> {
    match request {
        Request::WriteToTerminal(bytes) => Some(bytes@),
        _ => None,
    }
}

} // verus!
