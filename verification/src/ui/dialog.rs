//! The state of the dialogs: file browsers, the go-to-line prompt and
//! plain messages.
//!
//! A dialog never touches the disk. Whoever owns it reads the directories
//! and hands over what was found.

use vstd::prelude::*;
use crate::file_tree::tree::{
    children_for, lemma_entry_views, node_views, DirNode, DirNodeView, EntryKind,
    EntryView, FileTreeEntry,
};
use crate::text::{decimal, push_decimal};

verus! {

/// A directory entry for the file browser
#[derive(Debug, Clone)]
pub struct DirEntry {
    pub name: String,
    pub path: String,
    pub is_dir: bool,
}

/// The mathematical content of a `DirEntry`.
pub struct DirEntryView {
    pub name: Seq<char>,
    pub path: Seq<char>,
    pub is_dir: bool,
}

impl View for DirEntry {
    type V = DirEntryView;

    open spec fn view(&self) -> DirEntryView {
        DirEntryView { name: self.name@, path: self.path@, is_dir: self.is_dir }
    }
}

/// The views of a list of browser entries.
pub open spec fn dir_entry_views(entries: Seq<DirEntry>) -> Seq<DirEntryView> {
    entries.map_values(|e: DirEntry| e@)
}

/// A directory as it was found on disk: its path, the path of the
/// directory above it if there is one, and what it holds (nothing, if it
/// could not be read).
pub struct DirSnapshot {
    pub dir: String,
    pub parent: Option<String>,
    pub listing: Vec<DirNode>,
}

/// The browser entry for a tree entry.
pub open spec fn browser_entry(e: EntryView) -> DirEntryView {
    DirEntryView { name: e.name, path: e.path, is_dir: e.kind == EntryKind::Directory }
}

/// The entry that leads to the directory above.
pub open spec fn parent_entry(parent: Seq<char>) -> DirEntryView {
    DirEntryView { name: ".."@, path: parent, is_dir: true }
}

/// What a file browser lists for a directory: an entry for the directory
/// above, if there is one, and then what the directory holds without its
/// hidden files, directories first, each kind by name without regard to
/// case.
pub open spec fn browser_entries(parent: Option<Seq<char>>, listing: Seq<DirNodeView>) -> Seq<
    DirEntryView,
> {
    let shown = children_for(listing, 0, false).map_values(|e: EntryView| browser_entry(e));
    match parent {
        Some(p) => seq![parent_entry(p)] + shown,
        None => shown,
    }
}

/// The text of an optional string.
pub open spec fn text_of(s: Option<String>) -> Option<Seq<char>> {
    match s {
        Some(t) => Some(t@),
        None => None,
    }
}

/// The entries a file browser lists for a directory.
pub fn list_directory(parent: &Option<String>, listing: &Vec<DirNode>) -> (entries: Vec<DirEntry>)
    ensures
        dir_entry_views(entries@) == browser_entries(text_of(*parent), node_views(listing@)),
{
    let mut holder = FileTreeEntry {
        name: String::new(),
        path: String::new(),
        kind: EntryKind::Directory,
        depth: 0,
        expanded: true,
        children: Vec::new(),
    };
    holder.load_children(listing, false);
    let ghost shown = children_for(node_views(listing@), 0, false);
    proof {
        lemma_entry_views(holder.children@);
    }
    let mut entries: Vec<DirEntry> = Vec::new();
    match parent {
        Some(p) => {
            entries.push(DirEntry { name: "..".to_string(), path: p.clone(), is_dir: true });
        },
        None => {},
    }
    let ghost head = dir_entry_views(entries@);
    let mut i: usize = 0;
    while i < holder.children.len()
        invariant
            i <= holder.children@.len(),
            shown.len() == holder.children@.len(),
            forall|k: int|
                0 <= k < holder.children@.len() ==> shown[k] == (#[trigger] holder.children@[k])@,
            dir_entry_views(entries@) =~= head + shown.take(i as int).map_values(
                |e: EntryView| browser_entry(e),
            ),
        decreases holder.children@.len() - i,
    {
        let child = &holder.children[i];
        let ghost before = dir_entry_views(entries@);
        entries.push(
            DirEntry { name: child.name.clone(), path: child.path.clone(), is_dir: child.is_dir() },
        );
        proof {
            assert(dir_entry_views(entries@) =~= before.push(browser_entry(shown[i as int])));
        }
        i += 1;
    }
    entries
}

/// The selection one step up a list.
pub open spec fn stepped_up(selected: usize) -> usize {
    if selected > 0 {
        (selected - 1) as usize
    } else {
        selected
    }
}

/// The selection one step down a list of `len` entries.
pub open spec fn stepped_down(selected: usize, len: nat) -> usize {
    if selected + 1 < len {
        (selected + 1) as usize
    } else {
        selected
    }
}

/// The selection `amount` entries up a list, but not above the first.
pub open spec fn paged_up(selected: usize, amount: usize) -> usize {
    if selected >= amount {
        (selected - amount) as usize
    } else {
        0
    }
}

/// The selection `amount` entries down a list of `len` entries, but not
/// below the last.
pub open spec fn paged_down(selected: usize, amount: usize, len: nat) -> usize {
    let last: int = if len == 0 {
        0
    } else {
        len - 1
    };
    if selected + amount <= last {
        (selected + amount) as usize
    } else {
        last as usize
    }
}

/// The selection `amount` entries down a list of `len` entries.
fn page_down_in(selected: usize, amount: usize, len: usize) -> (next: usize)
    ensures
        next == paged_down(selected, amount, len as nat),
{
    let last = if len == 0 {
        0
    } else {
        len - 1
    };
    let target = selected.saturating_add(amount);
    if target <= last {
        target
    } else {
        last
    }
}

/// What pressing Enter on a browser entry asks for.
#[derive(Debug, Clone, PartialEq, Eq)]
pub enum Chosen {
    /// Nothing is selected.
    Nothing,
    /// A file was chosen.
    File(String),
    /// A directory is to be entered, once it has been read.
    Directory(String),
}

/// What the selected entry, if there is one, stands for.
pub open spec fn chosen_in(entries: Seq<DirEntry>, selected: usize) -> Option<DirEntryView> {
    if selected < entries.len() {
        Some(entries[selected as int]@)
    } else {
        None
    }
}

/// What pressing Enter on the entry at `selected` asks for.
fn choose_entry(entries: &Vec<DirEntry>, selected: usize) -> (chosen: Chosen)
    ensures
        match chosen {
            Chosen::Nothing => selected >= entries@.len(),
            Chosen::File(path) => selected < entries@.len() && !entries@[selected as int].is_dir
                && path@ == entries@[selected as int].path@,
            Chosen::Directory(path) => selected < entries@.len() && entries@[selected as int].is_dir
                && path@ == entries@[selected as int].path@,
        },
{
    if selected < entries.len() {
        let entry = &entries[selected];
        if entry.is_dir {
            Chosen::Directory(entry.path.clone())
        } else {
            Chosen::File(entry.path.clone())
        }
    } else {
        Chosen::Nothing
    }
}

/// File open dialog state
#[derive(Debug, Clone)]
pub struct FileOpenDialog {
    /// Current directory being browsed
    pub current_dir: String,
    /// List of entries in current directory
    pub entries: Vec<DirEntry>,
    /// Currently selected index
    pub selected: usize,
    /// Scroll offset
    pub scroll: usize,
    /// Text input for filename/path
    pub input: String,
    /// Whether input field is focused (vs file list)
    pub input_focused: bool,
}

/// What was found at a path typed into a file browser.
pub enum Found {
    /// A directory, which was read.
    Directory(DirSnapshot),
    /// A file.
    File,
    /// Neither.
    Missing,
}

impl FileOpenDialog {
    /// Create a new file open dialog showing the given directory
    pub fn new(start: &DirSnapshot) -> (d: FileOpenDialog)
        ensures
            d.current_dir@ == start.dir@,
            dir_entry_views(d.entries@) == browser_entries(
                text_of(start.parent),
                node_views(start.listing@),
            ),
            d.selected == 0,
            d.scroll == 0,
            d.input@.len() == 0,
            !d.input_focused,
    {
        FileOpenDialog {
            current_dir: start.dir.clone(),
            entries: list_directory(&start.parent, &start.listing),
            selected: 0,
            scroll: 0,
            input: String::new(),
            input_focused: false,
        }
    }

    /// Refresh the directory listing from what the current directory was
    /// found to hold, and select its first entry
    pub fn refresh_entries(&mut self, parent: &Option<String>, listing: &Vec<DirNode>)
        ensures
            dir_entry_views(final(self).entries@) == browser_entries(
                text_of(*parent),
                node_views(listing@),
            ),
            final(self).selected == 0,
            final(self).scroll == 0,
            final(self).current_dir == old(self).current_dir,
            final(self).input == old(self).input,
            final(self).input_focused == old(self).input_focused,
    {
        self.entries = list_directory(parent, listing);
        self.selected = 0;
        self.scroll = 0;
    }

    /// Move selection up
    pub fn move_up(&mut self)
        ensures
            *final(self) == (FileOpenDialog { selected: stepped_up(old(self).selected), ..*old(self) }),
    {
        if self.selected > 0 {
            self.selected -= 1;
        }
    }

    /// Move selection down
    pub fn move_down(&mut self)
        ensures
            *final(self) == (FileOpenDialog {
                selected: stepped_down(old(self).selected, old(self).entries@.len()),
                ..*old(self)
            }),
    {
        if self.entries.len() > 0 && self.selected < self.entries.len() - 1 {
            self.selected += 1;
        }
    }

    /// Page up
    pub fn page_up(&mut self, amount: usize)
        ensures
            *final(self) == (FileOpenDialog {
                selected: paged_up(old(self).selected, amount),
                ..*old(self)
            }),
    {
        self.selected = self.selected.saturating_sub(amount);
    }

    /// Page down
    pub fn page_down(&mut self, amount: usize)
        ensures
            *final(self) == (FileOpenDialog {
                selected: paged_down(old(self).selected, amount, old(self).entries@.len()),
                ..*old(self)
            }),
    {
        self.selected = page_down_in(self.selected, amount, self.entries.len());
    }

    /// What Enter on the selected entry asks for: to open the selected
    /// file, or to enter the selected directory
    pub fn enter_selected(&self) -> (chosen: Chosen)
        ensures
            match chosen {
                Chosen::Nothing => self.selected >= self.entries@.len(),
                Chosen::File(path) => self.selected < self.entries@.len()
                    && !self.entries@[self.selected as int].is_dir && path@
                    == self.entries@[self.selected as int].path@,
                Chosen::Directory(path) => self.selected < self.entries@.len()
                    && self.entries@[self.selected as int].is_dir && path@
                    == self.entries@[self.selected as int].path@,
            },
    {
        choose_entry(&self.entries, self.selected)
    }

    /// Shows a directory that was read, and puts its path in the input
    /// field
    pub fn enter_directory(&mut self, found: &DirSnapshot)
        ensures
            final(self).current_dir@ == found.dir@,
            final(self).input@ == found.dir@,
            dir_entry_views(final(self).entries@) == browser_entries(
                text_of(found.parent),
                node_views(found.listing@),
            ),
            final(self).selected == 0,
            final(self).scroll == 0,
            final(self).input_focused == old(self).input_focused,
    {
        self.current_dir = found.dir.clone();
        self.refresh_entries(&found.parent, &found.listing);
        self.input = found.dir.clone();
    }

    /// Go to the parent directory, if there is one: `up` is that
    /// directory as it was read
    pub fn go_up(&mut self, up: Option<&DirSnapshot>)
        ensures
            up.is_none() ==> *final(self) == *old(self),
            up matches Some(found) ==> {
                &&& final(self).current_dir@ == found.dir@
                &&& final(self).input@ == found.dir@
                &&& dir_entry_views(final(self).entries@) == browser_entries(
                    text_of(found.parent),
                    node_views(found.listing@),
                )
                &&& final(self).selected == 0
                &&& final(self).scroll == 0
            },
    {
        match up {
            Some(found) => self.enter_directory(found),
            None => {},
        }
    }

    /// Handle text input
    pub fn handle_input(&mut self, c: char)
        ensures
            final(self).input@ == old(self).input@.push(c),
            *final(self) == (FileOpenDialog { input: final(self).input, ..*old(self) }),
    {
        self.input.push(c);
    }

    /// Handle backspace in input
    pub fn handle_backspace(&mut self)
        ensures
            final(self).input@ == if old(self).input@.len() > 0 {
                old(self).input@.drop_last()
            } else {
                old(self).input@
            },
            *final(self) == (FileOpenDialog { input: final(self).input, ..*old(self) }),
    {
        self.input.pop();
    }

    /// Goes where the input field says, given what was found at that
    /// path: a directory is shown, a file is returned to be opened, and
    /// anything else changes nothing
    pub fn navigate_to_input(&mut self, found: &Found) -> (file: Option<String>)
        ensures
            match found {
                Found::Directory(dir) => file.is_none() && final(self).current_dir@ == dir.dir@
                    && dir_entry_views(final(self).entries@) == browser_entries(
                    text_of(dir.parent),
                    node_views(dir.listing@),
                ) && final(self).selected == 0 && final(self).scroll == 0 && final(self).input
                    == old(self).input,
                Found::File => text_of(file) == Some(old(self).input@) && *final(self) == *old(self),
                Found::Missing => file.is_none() && *final(self) == *old(self),
            },
    {
        match found {
            Found::Directory(dir) => {
                self.current_dir = dir.dir.clone();
                self.refresh_entries(&dir.parent, &dir.listing);
                None
            },
            Found::File => Some(self.input.clone()),
            Found::Missing => None,
        }
    }

    /// Toggle focus between input and file list
    pub fn toggle_focus(&mut self)
        ensures
            *final(self) == (FileOpenDialog {
                input_focused: !old(self).input_focused,
                ..*old(self)
            }),
    {
        self.input_focused = !self.input_focused;
    }

    /// Get the currently selected entry
    pub fn selected_entry(&self) -> (entry: Option<&DirEntry>)
        ensures
            entry.is_some() == (self.selected < self.entries@.len()),
            entry matches Some(e) ==> *e == self.entries@[self.selected as int],
    {
        if self.selected < self.entries.len() {
            Some(&self.entries[self.selected])
        } else {
            None
        }
    }
}

/// File save as dialog state
#[derive(Debug, Clone)]
pub struct FileSaveAsDialog {
    /// Current directory being browsed
    pub current_dir: String,
    /// List of entries in current directory
    pub entries: Vec<DirEntry>,
    /// Currently selected index in file list
    pub selected: usize,
    /// Filename input
    pub filename: String,
    /// Which field is focused: 0 = filename, 1 = file list
    pub focus: usize,
}

/// Whether a character is white space, as Unicode defines it.
pub open spec fn is_white_space(c: char) -> bool {
    let v = c as u32;
    ||| 0x09 <= v <= 0x0d
    ||| v == 0x20
    ||| v == 0x85
    ||| v == 0xa0
    ||| v == 0x1680
    ||| 0x2000 <= v <= 0x200a
    ||| v == 0x2028
    ||| v == 0x2029
    ||| v == 0x202f
    ||| v == 0x205f
    ||| v == 0x3000
}

/// Whether a text holds something other than white space.
pub open spec fn has_content(text: Seq<char>) -> bool {
    exists|i: int| 0 <= i < text.len() && !is_white_space(#[trigger] text[i])
}

/// Whether a character is white space.
fn white_space(c: char) -> (r: bool)
    ensures
        r == is_white_space(c),
{
    let v: u32 = c as u32;
    (0x09 <= v && v <= 0x0d) || v == 0x20 || v == 0x85 || v == 0xa0 || v == 0x1680 || (0x2000 <= v
        && v <= 0x200a) || v == 0x2028 || v == 0x2029 || v == 0x202f || v == 0x205f || v == 0x3000
}

/// The path of `name` in the directory `dir`, as `std::path::Path::join`
/// gives it on the platform the program is built for.
pub uninterp spec fn joined_path(dir: Seq<char>, name: Seq<char>) -> Seq<char>;

/// `std::path::Path::join`, as text: the path of `name` in the directory
/// `dir`. The platform's rules for joining fill pages and look at the two
/// texts alone, so the result is named and nothing more is claimed of it.
#[verifier::external_body]
fn path_join(dir: &str, name: &str) -> (path: String)
    ensures
        path@ == joined_path(dir@, name@),
{
    std::path::Path::new(dir).join(name).to_string_lossy().to_string()
}

impl FileSaveAsDialog {
    /// Create a new file save as dialog showing the given directory
    pub fn new(start: &DirSnapshot, initial_filename: String) -> (d: FileSaveAsDialog)
        ensures
            d.current_dir@ == start.dir@,
            dir_entry_views(d.entries@) == browser_entries(
                text_of(start.parent),
                node_views(start.listing@),
            ),
            d.selected == 0,
            d.filename == initial_filename,
            d.focus == 0,
    {
        FileSaveAsDialog {
            current_dir: start.dir.clone(),
            entries: list_directory(&start.parent, &start.listing),
            selected: 0,
            filename: initial_filename,
            focus: 0,
        }
    }

    /// Refresh the directory listing from what the current directory was
    /// found to hold, and select its first entry
    pub fn refresh_entries(&mut self, parent: &Option<String>, listing: &Vec<DirNode>)
        ensures
            dir_entry_views(final(self).entries@) == browser_entries(
                text_of(*parent),
                node_views(listing@),
            ),
            final(self).selected == 0,
            final(self).current_dir == old(self).current_dir,
            final(self).filename == old(self).filename,
            final(self).focus == old(self).focus,
    {
        self.entries = list_directory(parent, listing);
        self.selected = 0;
    }

    /// Move selection up in file list
    pub fn move_up(&mut self)
        ensures
            *final(self) == (FileSaveAsDialog {
                selected: stepped_up(old(self).selected),
                ..*old(self)
            }),
    {
        if self.selected > 0 {
            self.selected -= 1;
        }
    }

    /// Move selection down in file list
    pub fn move_down(&mut self)
        ensures
            *final(self) == (FileSaveAsDialog {
                selected: stepped_down(old(self).selected, old(self).entries@.len()),
                ..*old(self)
            }),
    {
        if self.entries.len() > 0 && self.selected < self.entries.len() - 1 {
            self.selected += 1;
        }
    }

    /// Page up in file list
    pub fn page_up(&mut self, amount: usize)
        ensures
            *final(self) == (FileSaveAsDialog {
                selected: paged_up(old(self).selected, amount),
                ..*old(self)
            }),
    {
        self.selected = self.selected.saturating_sub(amount);
    }

    /// Page down in file list
    pub fn page_down(&mut self, amount: usize)
        ensures
            *final(self) == (FileSaveAsDialog {
                selected: paged_down(old(self).selected, amount, old(self).entries@.len()),
                ..*old(self)
            }),
    {
        self.selected = page_down_in(self.selected, amount, self.entries.len());
    }

    /// Enter on the selected entry: a file gives its name to the filename
    /// field, which takes the focus; a directory is returned, to be
    /// entered once it has been read
    pub fn enter_selected(&mut self) -> (dir: Option<String>)
        ensures
            match chosen_in(old(self).entries@, old(self).selected) {
                None => dir.is_none() && *final(self) == *old(self),
                Some(entry) => if entry.is_dir {
                    text_of(dir) == Some(entry.path) && *final(self) == *old(self)
                } else {
                    dir.is_none() && final(self).filename@ == entry.name && final(self).focus == 0
                        && *final(self) == (FileSaveAsDialog {
                        filename: final(self).filename,
                        focus: 0,
                        ..*old(self)
                    })
                },
            },
    {
        if self.selected < self.entries.len() {
            if self.entries[self.selected].is_dir {
                Some(self.entries[self.selected].path.clone())
            } else {
                self.filename = self.entries[self.selected].name.clone();
                self.focus = 0;
                None
            }
        } else {
            None
        }
    }

    /// Shows a directory that was read
    pub fn enter_directory(&mut self, found: &DirSnapshot)
        ensures
            final(self).current_dir@ == found.dir@,
            dir_entry_views(final(self).entries@) == browser_entries(
                text_of(found.parent),
                node_views(found.listing@),
            ),
            final(self).selected == 0,
            final(self).filename == old(self).filename,
            final(self).focus == old(self).focus,
    {
        self.current_dir = found.dir.clone();
        self.refresh_entries(&found.parent, &found.listing);
    }

    /// Go to the parent directory, if there is one: `up` is that
    /// directory as it was read
    pub fn go_up(&mut self, up: Option<&DirSnapshot>)
        ensures
            up.is_none() ==> *final(self) == *old(self),
            up matches Some(found) ==> {
                &&& final(self).current_dir@ == found.dir@
                &&& dir_entry_views(final(self).entries@) == browser_entries(
                    text_of(found.parent),
                    node_views(found.listing@),
                )
                &&& final(self).selected == 0
                &&& final(self).filename == old(self).filename
                &&& final(self).focus == old(self).focus
            },
    {
        match up {
            Some(found) => self.enter_directory(found),
            None => {},
        }
    }

    /// Handle text input for filename
    pub fn handle_input(&mut self, c: char)
        ensures
            final(self).filename@ == old(self).filename@.push(c),
            *final(self) == (FileSaveAsDialog { filename: final(self).filename, ..*old(self) }),
    {
        self.filename.push(c);
    }

    /// Handle backspace in filename input
    pub fn handle_backspace(&mut self)
        ensures
            final(self).filename@ == if old(self).filename@.len() > 0 {
                old(self).filename@.drop_last()
            } else {
                old(self).filename@
            },
            *final(self) == (FileSaveAsDialog { filename: final(self).filename, ..*old(self) }),
    {
        self.filename.pop();
    }

    /// Toggle focus between filename field and file list
    pub fn toggle_focus(&mut self)
        ensures
            *final(self) == (FileSaveAsDialog {
                focus: if old(self).focus == 0 {
                    1
                } else {
                    0
                },
                ..*old(self)
            }),
    {
        self.focus = if self.focus == 0 {
            1
        } else {
            0
        };
    }

    /// The path the dialog would save to: the filename in the current
    /// directory.
    pub open spec fn save_path(&self) -> Seq<char> {
        joined_path(self.current_dir@, self.filename@)
    }

    /// Get the full path to save to: the filename in the current
    /// directory, joined as the platform joins paths
    pub fn get_save_path(&self) -> (path: String)
        ensures
            path@ == self.save_path(),
    {
        path_join(self.current_dir.as_str(), self.filename.as_str())
    }

    /// Check if filename is valid (not empty, and not white space only)
    pub fn is_valid(&self) -> (valid: bool)
        ensures
            valid == has_content(self.filename@),
    {
        let mut valid = false;
        for c in it: self.filename.as_str().chars()
            invariant
                it.seq() == self.filename@,
                valid == has_content(self.filename@.take(it.index() as int)),
        {
            proof {
                let upto = self.filename@.take(it.index() + 1);
                assert(upto.last() == c);
            }
            if !white_space(c) {
                valid = true;
            }
        }
        proof {
            assert(self.filename@.take(self.filename@.len() as int) =~= self.filename@);
        }
        valid
    }

    /// Get the currently selected entry
    pub fn selected_entry(&self) -> (entry: Option<&DirEntry>)
        ensures
            entry.is_some() == (self.selected < self.entries@.len()),
            entry matches Some(e) ==> *e == self.entries@[self.selected as int],
    {
        if self.selected < self.entries.len() {
            Some(&self.entries[self.selected])
        } else {
            None
        }
    }
}

/// Simple message dialog
#[derive(Debug, Clone)]
pub struct MessageDialog {
    pub title: String,
    pub message: String,
}

/// The dialog that tells what this program is.
#[derive(Debug, Clone, Copy, PartialEq, Eq, Structural)]
pub struct AboutDialog {}

impl AboutDialog {
    pub fn new() -> (d: AboutDialog)
        ensures
            d == (AboutDialog {  }),
    {
        AboutDialog {  }
    }
}

/// Go to line dialog
#[derive(Debug, Clone)]
pub struct GoToLineDialog {
    /// Line number input
    pub input: String,
    /// Total lines in document (for display)
    pub total_lines: usize,
    /// Error message if invalid input
    pub error: Option<String>,
}

/// Whether a character is one of the ten digits.
pub open spec fn is_digit(c: char) -> bool {
    '0' <= c && c <= '9'
}

/// The value of a digit.
pub open spec fn digit_value(c: char) -> nat
    recommends
        is_digit(c),
{
    (c as u32 - 0x30) as nat
}

/// Whether a text is made of digits only.
pub open spec fn all_digits(text: Seq<char>) -> bool {
    forall|i: int| 0 <= i < text.len() ==> is_digit(#[trigger] text[i])
}

/// The number that a text of digits writes in decimal; 0 for no digits.
pub open spec fn decimal_value(digits: Seq<char>) -> nat
    decreases digits.len(),
{
    if digits.len() == 0 {
        0
    } else {
        decimal_value(digits.drop_last()) * 10 + digit_value(digits.last())
    }
}

/// The digits of a numeral: the text without a leading plus sign.
pub open spec fn unsigned_part(text: Seq<char>) -> Seq<char> {
    if text.len() > 0 && text[0] == '+' {
        text.drop_first()
    } else {
        text
    }
}

/// The number a text stands for: the text must be one or more digits,
/// which a plus sign may precede, and the number must fit the machine.
pub open spec fn parsed_number(text: Seq<char>) -> Option<usize> {
    let digits = unsigned_part(text);
    if digits.len() > 0 && all_digits(digits) && decimal_value(digits) <= usize::MAX {
        Some(decimal_value(digits) as usize)
    } else {
        None
    }
}

/// What is wrong with the input of a go-to-line dialog.
#[derive(Debug, Clone, Copy, PartialEq, Eq, Structural)]
pub enum LineError {
    /// Nothing was entered.
    Empty,
    /// The input is no number that fits the machine.
    Invalid,
    /// The number is 0.
    Zero,
    /// The number is greater than the number of lines.
    TooLarge,
}

/// What a go-to-line dialog makes of its input: the 0-based line, or what
/// is wrong.
pub open spec fn line_choice(input: Seq<char>, total_lines: usize) -> Result<usize, LineError> {
    if input.len() == 0 {
        Err(LineError::Empty)
    } else {
        match parsed_number(input) {
            None => Err(LineError::Invalid),
            Some(line) => if line == 0 {
                Err(LineError::Zero)
            } else if line > total_lines {
                Err(LineError::TooLarge)
            } else {
                Ok((line - 1) as usize)
            },
        }
    }
}

/// The message shown for an error.
pub open spec fn line_error_text(error: LineError, total_lines: usize) -> Seq<char> {
    match error {
        LineError::Empty => "Enter a line number"@,
        LineError::Invalid => "Invalid number"@,
        LineError::Zero => "Line number must be at least 1"@,
        LineError::TooLarge => "Line must be 1-"@ + decimal(total_lines as nat),
    }
}

/// A number grows with every digit written behind it.
proof fn lemma_decimal_value_grows(digits: Seq<char>, n: int)
    requires
        0 <= n <= digits.len(),
    ensures
        decimal_value(digits.take(n)) <= decimal_value(digits),
    decreases digits.len() - n,
{
    if n < digits.len() {
        let upto = digits.take(n + 1);
        assert(upto.drop_last() =~= digits.take(n));
        lemma_decimal_value_grows(digits, n + 1);
    } else {
        assert(digits.take(n) =~= digits);
    }
}

/// Reads a decimal number, which a plus sign may precede.
pub fn parse_number(text: &str) -> (number: Option<usize>)
    ensures
        number == parsed_number(text@),
{
    let chars = crate::text::chars_of(text);
    let start: usize = if chars.len() > 0 && chars[0] == '+' {
        1
    } else {
        0
    };
    let ghost digits = unsigned_part(text@);
    if start >= chars.len() {
        return None;
    }
    let mut value: usize = 0;
    let mut i: usize = start;
    while i < chars.len()
        invariant
            start <= i <= chars@.len(),
            digits == unsigned_part(text@),
            digits == chars@.subrange(start as int, chars@.len() as int),
            all_digits(digits.take(i - start)),
            value == decimal_value(digits.take(i - start)),
        decreases chars@.len() - i,
    {
        let c = chars[i];
        proof {
            let upto = digits.take(i - start + 1);
            assert(upto.drop_last() =~= digits.take(i - start));
            assert(upto.last() == c);
        }
        if !('0' <= c && c <= '9') {
            return None;
        }
        let d: usize = (c as u32 - 0x30) as usize;
        if value > (usize::MAX - d) / 10 {
            proof {
                lemma_decimal_value_grows(digits, i - start + 1);
                assert(value * 10 + d > usize::MAX) by (nonlinear_arith)
                    requires
                        value > (usize::MAX - d) / 10,
                        0 <= d < 10,
                ;
            }
            return None;
        }
        assert(value * 10 + d <= usize::MAX) by (nonlinear_arith)
            requires
                value <= (usize::MAX - d) / 10,
                0 <= d < 10,
        ;
        value = value * 10 + d;
        i += 1;
    }
    proof {
        assert(digits.take(i - start) =~= digits);
    }
    Some(value)
}

impl GoToLineDialog {
    /// Create a new go to line dialog
    pub fn new(total_lines: usize) -> (d: GoToLineDialog)
        ensures
            d.input@.len() == 0,
            d.total_lines == total_lines,
            d.error.is_none(),
    {
        GoToLineDialog { input: String::new(), total_lines, error: None }
    }

    /// Handle character input (only digits allowed)
    pub fn handle_input(&mut self, c: char)
        ensures
            !is_digit(c) ==> *final(self) == *old(self),
            is_digit(c) ==> final(self).input@ == old(self).input@.push(c),
            is_digit(c) ==> final(self).error.is_none(),
            is_digit(c) ==> final(self).total_lines == old(self).total_lines,
    {
        if '0' <= c && c <= '9' {
            self.input.push(c);
            self.error = None;
        }
    }

    /// Handle backspace
    pub fn handle_backspace(&mut self)
        ensures
            final(self).input@ == if old(self).input@.len() > 0 {
                old(self).input@.drop_last()
            } else {
                old(self).input@
            },
            final(self).error.is_none(),
            final(self).total_lines == old(self).total_lines,
    {
        self.input.pop();
        self.error = None;
    }

    /// Parse and validate the line number, returns 0-indexed line if valid
    pub fn get_line_number(&mut self) -> (line: Option<usize>)
        ensures
            final(self).input == old(self).input,
            final(self).total_lines == old(self).total_lines,
            match line_choice(old(self).input@, old(self).total_lines) {
                Ok(l) => line == Some(l) && final(self).error == old(self).error,
                Err(e) => line.is_none() && text_of(final(self).error) == Some(
                    line_error_text(e, old(self).total_lines),
                ),
            },
    {
        if self.input.as_str().is_empty() {
            self.error = Some("Enter a line number".to_string());
            return None;
        }
        match parse_number(self.input.as_str()) {
            Some(line) => {
                if line >= 1 && line <= self.total_lines {
                    Some(line - 1)
                } else if line == 0 {
                    self.error = Some("Line number must be at least 1".to_string());
                    None
                } else {
                    let mut text = "Line must be 1-".to_string();
                    push_decimal(&mut text, self.total_lines);
                    self.error = Some(text);
                    None
                }
            },
            None => {
                self.error = Some("Invalid number".to_string());
                None
            },
        }
    }
}

/// Represents an active dialog
#[derive(Debug, Clone)]
pub enum Dialog {
    /// File open dialog
    FileOpen(FileOpenDialog),
    /// File save as dialog
    FileSaveAs(FileSaveAsDialog),
    /// Message/alert dialog
    Message(MessageDialog),
    /// Go to line dialog
    GoToLine(GoToLineDialog),
    /// About dialog
    About(AboutDialog),
}

} // verus!
