//! The file tree: directory entries, their display order, and the flat
//! list of visible entries with its selection.
//!
//! The tree never touches the disk. Whoever owns it reads the directories
//! and hands over what was found as a `DirNode`.

use vstd::prelude::*;
use crate::file_tree::order::{display_order, insert_in_display_order};

verus! {

/// The type of file tree entry
#[derive(Debug, Clone, Copy, PartialEq, Eq, Structural)]
pub enum EntryKind {
    File,
    Directory,
}

/// Represents an entry in the file tree (file or directory)
#[derive(Debug)]
pub struct FileTreeEntry {
    /// The file/directory name
    pub name: String,
    /// Full path to the entry
    pub path: String,
    /// Whether this is a file or directory
    pub kind: EntryKind,
    /// Depth level in the tree (0 = root)
    pub depth: usize,
    /// Whether this directory is expanded (only relevant for directories)
    pub expanded: bool,
    /// Children entries (only populated when expanded)
    pub children: Vec<FileTreeEntry>,
}

/// The mathematical content of an entry.
pub struct EntryView {
    pub name: Seq<char>,
    pub path: Seq<char>,
    pub kind: EntryKind,
    pub depth: usize,
    pub expanded: bool,
    pub children: Seq<EntryView>,
}

impl View for FileTreeEntry {
    type V = EntryView;

    open spec fn view(&self) -> EntryView
        decreases self,
    {
        EntryView {
            name: self.name@,
            path: self.path@,
            kind: self.kind,
            depth: self.depth,
            expanded: self.expanded,
            children: entry_views(self.children@),
        }
    }
}

/// The views of a list of entries.
pub open spec fn entry_views(entries: Seq<FileTreeEntry>) -> Seq<EntryView>
    decreases entries,
{
    if entries.len() == 0 {
        Seq::empty()
    } else {
        entry_views(entries.drop_last()).push(entries.last()@)
    }
}

/// The views of a list are the views of its items, one for one.
pub proof fn lemma_entry_views(entries: Seq<FileTreeEntry>)
    ensures
        entry_views(entries).len() == entries.len(),
        forall|i: int| 0 <= i < entries.len() ==> entry_views(entries)[i] == (#[trigger] entries[i])@,
    decreases entries.len(),
{
    if entries.len() > 0 {
        lemma_entry_views(entries.drop_last());
        assert(entry_views(entries) == entry_views(entries.drop_last()).push(entries.last()@));
        assert forall|i: int| 0 <= i < entries.len() implies entry_views(entries)[i] == (
        #[trigger] entries[i])@ by {
            if i < entries.len() - 1 {
                assert(entries.drop_last()[i] == entries[i]);
            }
        }
    }
}

impl Clone for FileTreeEntry {
    fn clone(&self) -> (copy: FileTreeEntry)
        ensures
            copy@ == self@,
        decreases *self,
    {
        let mut children: Vec<FileTreeEntry> = Vec::new();
        let mut i: usize = 0;
        while i < self.children.len()
            invariant
                i <= self.children@.len(),
                children@.len() == i,
                forall|j: int| 0 <= j < i ==> (#[trigger] children@[j])@ == self.children@[j]@,
            decreases self.children@.len() - i,
        {
            let child = self.children[i].clone();
            children.push(child);
            i += 1;
        }
        let copy = FileTreeEntry {
            name: self.name.clone(),
            path: self.path.clone(),
            kind: self.kind,
            depth: self.depth,
            expanded: self.expanded,
            children,
        };
        proof {
            lemma_entry_views(self.children@);
            lemma_entry_views(copy.children@);
            assert forall|j: int| 0 <= j < self.children@.len() implies copy@.children[j]
                == self@.children[j] by {
                assert(copy.children@[j]@ == self.children@[j]@);
            }
        }
        assert(copy@.children =~= self@.children);
        copy
    }
}

/// What was found on disk at one path: its name, whether it is a
/// directory, and what it holds, in the order the disk gave it. The
/// listing of a file, and of a directory that was not read or could not
/// be, is empty.
pub struct DirNode {
    /// The last component of the path.
    pub name: String,
    /// The full path.
    pub path: String,
    /// Whether the path is a directory.
    pub is_dir: bool,
    /// What the directory holds.
    pub listing: Vec<DirNode>,
}

/// The mathematical content of a `DirNode`.
pub struct DirNodeView {
    pub name: Seq<char>,
    pub path: Seq<char>,
    pub is_dir: bool,
    pub listing: Seq<DirNodeView>,
}

impl View for DirNode {
    type V = DirNodeView;

    open spec fn view(&self) -> DirNodeView
        decreases self,
    {
        DirNodeView {
            name: self.name@,
            path: self.path@,
            is_dir: self.is_dir,
            listing: node_views(self.listing@),
        }
    }
}

/// The views of a list of nodes.
pub open spec fn node_views(nodes: Seq<DirNode>) -> Seq<DirNodeView>
    decreases nodes,
{
    if nodes.len() == 0 {
        Seq::empty()
    } else {
        node_views(nodes.drop_last()).push(nodes.last()@)
    }
}

/// The views of a list are the views of its items, one for one.
pub proof fn lemma_node_views(nodes: Seq<DirNode>)
    ensures
        node_views(nodes).len() == nodes.len(),
        forall|i: int| 0 <= i < nodes.len() ==> node_views(nodes)[i] == (#[trigger] nodes[i])@,
    decreases nodes.len(),
{
    if nodes.len() > 0 {
        lemma_node_views(nodes.drop_last());
        assert(node_views(nodes) == node_views(nodes.drop_last()).push(nodes.last()@));
        assert forall|i: int| 0 <= i < nodes.len() implies node_views(nodes)[i] == (
        #[trigger] nodes[i])@ by {
            if i < nodes.len() - 1 {
                assert(nodes.drop_last()[i] == nodes[i]);
            }
        }
    }
}

/// Whether a name marks a hidden file: it starts with a dot.
pub open spec fn is_hidden(name: Seq<char>) -> bool {
    name.len() > 0 && name[0] == '.'
}

/// Whether a node is listed: hidden ones are not, unless asked for.
pub open spec fn is_listed(node: DirNodeView, show_hidden: bool) -> bool {
    show_hidden || !is_hidden(node.name)
}

/// The depth of the children of an entry at `depth`.
pub open spec fn child_depth(depth: usize) -> usize {
    if depth < usize::MAX {
        (depth + 1) as usize
    } else {
        depth
    }
}

/// A collapsed entry without children for what was found at a path.
pub open spec fn entry_of(node: DirNodeView, depth: usize) -> EntryView {
    EntryView {
        name: node.name,
        path: node.path,
        kind: if node.is_dir {
            EntryKind::Directory
        } else {
            EntryKind::File
        },
        depth,
        expanded: false,
        children: Seq::empty(),
    }
}

/// The entry for `node` at `depth` in a tree where exactly the directories
/// whose paths are in `open_paths` are expanded. An expanded directory has
/// its listed children, in display order, each built the same way; any
/// other entry has none. Something that is not a directory is marked
/// expanded only if `keep_open` says so.
pub open spec fn rebuilt(
    node: DirNodeView,
    depth: usize,
    open_paths: Seq<Seq<char>>,
    show_hidden: bool,
    keep_open: bool,
) -> EntryView
    decreases node, 1int,
{
    let expanded = if node.is_dir {
        open_paths.contains(node.path)
    } else {
        keep_open
    };
    EntryView {
        expanded,
        children: if node.is_dir && expanded {
            display_order(
                rebuilt_all(node.listing, child_depth(depth), open_paths, show_hidden),
            )
        } else {
            Seq::empty()
        },
        ..entry_of(node, depth)
    }
}

/// The entries for the listed nodes among `nodes`, in the order of
/// `nodes`, each built by `rebuilt`.
pub open spec fn rebuilt_all(
    nodes: Seq<DirNodeView>,
    depth: usize,
    open_paths: Seq<Seq<char>>,
    show_hidden: bool,
) -> Seq<EntryView>
    decreases nodes, 0int,
{
    if nodes.len() == 0 {
        Seq::empty()
    } else {
        let before = rebuilt_all(nodes.drop_last(), depth, open_paths, show_hidden);
        if is_listed(nodes.last(), show_hidden) {
            before.push(rebuilt(nodes.last(), depth, open_paths, show_hidden, false))
        } else {
            before
        }
    }
}

/// The children that a directory entry at `depth` shows for a listing:
/// the listed nodes as collapsed entries one level down, in display
/// order.
pub open spec fn children_for(listing: Seq<DirNodeView>, depth: usize, show_hidden: bool) -> Seq<
    EntryView,
> {
    display_order(rebuilt_all(listing, child_depth(depth), Seq::empty(), show_hidden))
}

/// The entry and, if it is expanded, everything below it, in the order
/// shown: each entry directly before its own children.
pub open spec fn flat(entry: EntryView) -> Seq<EntryView>
    decreases entry, 1int,
{
    if entry.expanded {
        seq![entry] + flat_all(entry.children)
    } else {
        seq![entry]
    }
}

/// The flat lists of several entries, one after the other.
pub open spec fn flat_all(entries: Seq<EntryView>) -> Seq<EntryView>
    decreases entries, 0int,
{
    if entries.len() == 0 {
        Seq::empty()
    } else {
        flat_all(entries.drop_last()) + flat(entries.last())
    }
}

/// Whether a name starts with a dot.
fn starts_with_dot(name: &str) -> (hidden: bool)
    ensures
        hidden == is_hidden(name@),
{
    if name.is_empty() {
        false
    } else {
        name.get_char(0) == '.'
    }
}

/// The depth one level below `depth`.
fn one_deeper(depth: usize) -> (deeper: usize)
    ensures
        deeper == child_depth(depth),
{
    if depth < usize::MAX {
        depth + 1
    } else {
        depth
    }
}

impl FileTreeEntry {
    /// A collapsed entry, without children, for what was found at a path.
    pub fn from_path(node: &DirNode, depth: usize) -> (entry: FileTreeEntry)
        ensures
            entry@ == entry_of(node@, depth),
    {
        let entry = FileTreeEntry {
            name: node.name.clone(),
            path: node.path.clone(),
            kind: if node.is_dir {
                EntryKind::Directory
            } else {
                EntryKind::File
            },
            depth,
            expanded: false,
            children: Vec::new(),
        };
        entry
    }

    /// Check if this is a directory
    pub fn is_dir(&self) -> (r: bool)
        ensures
            r == (self@.kind == EntryKind::Directory),
    {
        match self.kind {
            EntryKind::Directory => true,
            EntryKind::File => false,
        }
    }

    /// Gives a directory entry its children for what the directory was
    /// found to hold: the listed nodes, collapsed, in display order. An
    /// entry that is no directory stays as it is.
    pub fn load_children(&mut self, listing: &Vec<DirNode>, show_hidden: bool)
        ensures
            old(self)@.kind != EntryKind::Directory ==> final(self)@ == old(self)@,
            old(self)@.kind == EntryKind::Directory ==> final(self)@ == (EntryView {
                children: children_for(node_views(listing@), old(self)@.depth, show_hidden),
                ..old(self)@
            }),
    {
        match self.kind {
            EntryKind::File => {
                return ;
            },
            EntryKind::Directory => {},
        }
        let depth = one_deeper(self.depth);
        let ghost nodes = node_views(listing@);
        let ghost none = Seq::<Seq<char>>::empty();
        let mut children: Vec<FileTreeEntry> = Vec::new();
        let mut i: usize = 0;
        proof {
            lemma_node_views(listing@);
        }
        while i < listing.len()
            invariant
                i <= listing@.len(),
                nodes == node_views(listing@),
                nodes.len() == listing@.len(),
                forall|k: int| 0 <= k < listing@.len() ==> nodes[k] == (#[trigger] listing@[k])@,
                none == Seq::<Seq<char>>::empty(),
                entry_views(children@) == display_order(
                    rebuilt_all(nodes.take(i as int), depth, none, show_hidden),
                ),
            decreases listing@.len() - i,
        {
            let node = &listing[i];
            proof {
                let upto = nodes.take(i + 1);
                assert(upto.drop_last() =~= nodes.take(i as int));
                assert(rebuilt(node@, depth, none, show_hidden, false) == entry_of(node@, depth));
            }
            if show_hidden || !starts_with_dot(node.name.as_str()) {
                let child = FileTreeEntry::from_path(node, depth);
                insert_in_display_order(&mut children, child);
                proof {
                    let built = rebuilt_all(nodes.take(i + 1), depth, none, show_hidden);
                    assert(built.drop_last() =~= rebuilt_all(
                        nodes.take(i as int),
                        depth,
                        none,
                        show_hidden,
                    ));
                }
            }
            i += 1;
        }
        proof {
            assert(nodes.take(i as int) =~= nodes);
        }
        self.children = children;
    }
}

/// The file tree state
#[derive(Debug)]
pub struct FileTree {
    /// Root directory path
    pub root: String,
    /// All visible entries (flattened for display)
    pub entries: Vec<FileTreeEntry>,
    /// Currently selected index
    pub selected: usize,
    /// Scroll offset for display
    pub scroll_offset: usize,
    /// Whether to show hidden files
    pub show_hidden: bool,
}

/// The mathematical content of a file tree.
pub struct TreeView {
    pub root: Seq<char>,
    pub entries: Seq<EntryView>,
    pub selected: usize,
    pub scroll_offset: usize,
    pub show_hidden: bool,
}

/// The texts of a list of strings.
pub open spec fn path_views(paths: Seq<String>) -> Seq<Seq<char>> {
    paths.map_values(|p: String| p@)
}

/// The paths of the expanded entries among `entries`, in their order.
pub open spec fn open_paths_of(entries: Seq<EntryView>) -> Seq<Seq<char>>
    decreases entries.len(),
{
    if entries.len() == 0 {
        Seq::empty()
    } else if entries.last().expanded {
        open_paths_of(entries.drop_last()).push(entries.last().path)
    } else {
        open_paths_of(entries.drop_last())
    }
}

/// The index of the first entry at `path`, or the number of entries if
/// there is none.
pub open spec fn first_at_path(entries: Seq<EntryView>, path: Seq<char>) -> int
    decreases entries.len(),
{
    if entries.len() == 0 {
        0
    } else {
        let before = first_at_path(entries.drop_last(), path);
        if before < entries.len() - 1 {
            before
        } else if entries.last().path == path {
            entries.len() - 1
        } else {
            entries.len() as int
        }
    }
}

/// `entries` with the first entry at `path`, if there is one, marked
/// expanded or collapsed.
pub open spec fn with_expanded(entries: Seq<EntryView>, path: Seq<char>, expanded: bool) -> Seq<
    EntryView,
> {
    let k = first_at_path(entries, path);
    if 0 <= k < entries.len() {
        entries.update(k, EntryView { expanded, ..entries[k] })
    } else {
        entries
    }
}

/// The selection once `len` entries are shown: unchanged if it still
/// points at one of them or nothing is shown, else the last of them.
pub open spec fn clamped_selection(selected: usize, len: nat) -> usize {
    if selected >= len && len > 0 {
        (len - 1) as usize
    } else {
        selected
    }
}

/// The root entry after a refresh: expanded, with its listed children
/// collapsed below it.
pub open spec fn refreshed_root(node: DirNodeView, show_hidden: bool) -> EntryView {
    EntryView {
        expanded: true,
        children: if node.is_dir {
            children_for(node.listing, 0, show_hidden)
        } else {
            Seq::empty()
        },
        ..entry_of(node, 0)
    }
}

impl TreeView {
    /// The scroll offset that `ensure_visible` leaves: never below the
    /// selection.
    pub open spec fn scrolled_to_selection(self) -> TreeView {
        if self.selected < self.scroll_offset {
            TreeView { scroll_offset: self.selected, ..self }
        } else {
            self
        }
    }

    /// The tree with another list of entries, and the selection clamped
    /// to it.
    pub open spec fn showing(self, entries: Seq<EntryView>) -> TreeView {
        TreeView { entries, selected: clamped_selection(self.selected, entries.len()), ..self }
    }

    /// The tree after `refresh`: the root found on disk and its
    /// children, or nothing if no root was found.
    pub open spec fn refresh(self, disk: Option<DirNodeView>) -> TreeView {
        match disk {
            Some(node) => self.showing(flat(refreshed_root(node, self.show_hidden))),
            None => self.showing(Seq::empty()),
        }
    }

    /// The tree after its entries were rebuilt from disk, with the same
    /// directories expanded as before.
    pub open spec fn rebuild(self, disk: Option<DirNodeView>) -> TreeView {
        match disk {
            Some(node) => self.showing(
                flat(rebuilt(node, 0, open_paths_of(self.entries), self.show_hidden, true)),
            ),
            None => self.showing(Seq::empty()),
        }
    }

    /// Whether `toggle_expand` has anything to do: a directory is selected.
    pub open spec fn directory_selected(self) -> bool {
        self.selected < self.entries.len() && self.entries[self.selected as int].kind
            == EntryKind::Directory
    }

    /// The tree after `toggle_expand`.
    pub open spec fn toggle_expand(self, disk: Option<DirNodeView>) -> TreeView {
        if self.directory_selected() {
            let target = self.entries[self.selected as int];
            (TreeView {
                entries: with_expanded(self.entries, target.path, !target.expanded),
                ..self
            }).rebuild(disk)
        } else {
            self
        }
    }
}

impl View for FileTree {
    type V = TreeView;

    open spec fn view(&self) -> TreeView {
        TreeView {
            root: self.root@,
            entries: entry_views(self.entries@),
            selected: self.selected,
            scroll_offset: self.scroll_offset,
            show_hidden: self.show_hidden,
        }
    }
}

/// The views of a list with one more item are the views of the list with
/// the view of the item.
pub proof fn lemma_entry_views_push(entries: Seq<FileTreeEntry>, entry: FileTreeEntry)
    ensures
        entry_views(entries.push(entry)) == entry_views(entries).push(entry@),
{
    let all = entries.push(entry);
    assert(all.drop_last() =~= entries);
}

/// The view of the node found on disk, if one was found.
pub open spec fn disk_view(disk: Option<&DirNode>) -> Option<DirNodeView> {
    match disk {
        Some(node) => Some(node@),
        None => None,
    }
}

/// Whether `path` is among `paths`.
fn contains_path(paths: &Vec<String>, path: &String) -> (found: bool)
    ensures
        found == path_views(paths@).contains(path@),
{
    let mut i: usize = 0;
    while i < paths.len()
        invariant
            i <= paths@.len(),
            forall|k: int| 0 <= k < i ==> path_views(paths@)[k] != path@,
        decreases paths@.len() - i,
    {
        if paths[i] == *path {
            assert(path_views(paths@)[i as int] == path@);
            return true;
        }
        i += 1;
    }
    false
}

/// Appends `entry` and, if it is expanded, everything below it to `out`.
fn flatten_into(out: &mut Vec<FileTreeEntry>, entry: &FileTreeEntry)
    ensures
        entry_views(final(out)@) == entry_views(old(out)@) + flat(entry@),
    decreases entry,
{
    let ghost start = entry_views(out@);
    let copy = entry.clone();
    proof {
        lemma_entry_views_push(out@, copy);
    }
    out.push(copy);
    if entry.expanded {
        let ghost kids = entry_views(entry.children@);
        proof {
            lemma_entry_views(entry.children@);
        }
        let mut i: usize = 0;
        while i < entry.children.len()
            invariant
                i <= entry.children@.len(),
                kids == entry_views(entry.children@),
                kids.len() == entry.children@.len(),
                forall|k: int|
                    0 <= k < entry.children@.len() ==> kids[k] == (#[trigger] entry.children@[k])@,
                entry_views(out@) == start + (seq![entry@] + flat_all(kids.take(i as int))),
            decreases entry.children@.len() - i,
        {
            flatten_into(out, &entry.children[i]);
            proof {
                let upto = kids.take(i + 1);
                assert(upto.drop_last() =~= kids.take(i as int));
            }
            i += 1;
        }
        proof {
            assert(kids.take(i as int) =~= kids);
        }
    }
}

impl FileTree {
    /// Create a new file tree rooted at the given path, showing what was
    /// found there.
    pub fn new(root: String, show_hidden: bool, disk: Option<&DirNode>) -> (tree: FileTree)
        ensures
            tree@ == (TreeView {
                root: root@,
                entries: Seq::empty(),
                selected: 0,
                scroll_offset: 0,
                show_hidden,
            }).refresh(disk_view(disk)),
    {
        let mut tree = FileTree {
            root,
            entries: Vec::new(),
            selected: 0,
            scroll_offset: 0,
            show_hidden,
        };
        tree.refresh(disk);
        tree
    }

    /// Sets the selection to the last entry if it points past the end.
    fn clamp_selection(&mut self)
        ensures
            final(self)@ == old(self)@.showing(old(self)@.entries),
            final(self).entries == old(self).entries,
    {
        proof {
            lemma_entry_views(self.entries@);
        }
        if self.selected >= self.entries.len() && self.entries.len() > 0 {
            self.selected = self.entries.len() - 1;
        }
    }

    /// Refresh the file tree from what was found on disk: the root and
    /// its children, everything below collapsed.
    pub fn refresh(&mut self, disk: Option<&DirNode>)
        ensures
            final(self)@ == old(self)@.refresh(disk_view(disk)),
    {
        self.entries.clear();
        match disk {
            Some(node) => {
                let mut root_entry = FileTreeEntry::from_path(node, 0);
                root_entry.expanded = true;
                root_entry.load_children(&node.listing, self.show_hidden);
                self.flatten_entry(&root_entry);
            },
            None => {},
        }
        self.clamp_selection();
    }

    /// Flatten an entry and its expanded children into the entries list
    fn flatten_entry(&mut self, entry: &FileTreeEntry)
        ensures
            final(self)@ == (TreeView {
                entries: old(self)@.entries + flat(entry@),
                ..old(self)@
            }),
    {
        flatten_into(&mut self.entries, entry);
    }

    /// Get the currently selected entry
    pub fn selected_entry(&self) -> (entry: Option<&FileTreeEntry>)
        ensures
            entry.is_some() == (self.selected < self.entries@.len()),
            entry matches Some(e) ==> *e == self.entries@[self.selected as int],
    {
        if self.selected < self.entries.len() {
            Some(&self.entries[self.selected])
        } else {
            None
        }
    }

    /// Move selection up
    pub fn move_up(&mut self)
        ensures
            old(self).selected == 0 ==> *final(self) == *old(self),
            old(self).selected > 0 ==> *final(self) == (FileTree {
                selected: (old(self).selected - 1) as usize,
                scroll_offset: if old(self).selected - 1 < old(self).scroll_offset {
                    (old(self).selected - 1) as usize
                } else {
                    old(self).scroll_offset
                },
                ..*old(self)
            }),
    {
        if self.selected > 0 {
            self.selected -= 1;
            self.ensure_visible();
        }
    }

    /// Move selection down
    pub fn move_down(&mut self)
        ensures
            old(self).selected + 1 >= old(self).entries@.len() ==> *final(self) == *old(self),
            old(self).selected + 1 < old(self).entries@.len() ==> *final(self) == (FileTree {
                selected: (old(self).selected + 1) as usize,
                scroll_offset: if old(self).selected + 1 < old(self).scroll_offset {
                    (old(self).selected + 1) as usize
                } else {
                    old(self).scroll_offset
                },
                ..*old(self)
            }),
    {
        if self.entries.len() > 0 && self.selected < self.entries.len() - 1 {
            self.selected += 1;
            self.ensure_visible();
        }
    }

    /// The paths of the entries that are expanded, in display order.
    pub fn expanded_paths(&self) -> (paths: Vec<String>)
        ensures
            path_views(paths@) == open_paths_of(self@.entries),
    {
        let mut paths: Vec<String> = Vec::new();
        let ghost views = entry_views(self.entries@);
        proof {
            lemma_entry_views(self.entries@);
        }
        let mut i: usize = 0;
        while i < self.entries.len()
            invariant
                i <= self.entries@.len(),
                views == entry_views(self.entries@),
                views.len() == self.entries@.len(),
                forall|k: int|
                    0 <= k < self.entries@.len() ==> views[k] == (#[trigger] self.entries@[k])@,
                path_views(paths@) == open_paths_of(views.take(i as int)),
            decreases self.entries@.len() - i,
        {
            proof {
                let upto = views.take(i + 1);
                assert(upto.drop_last() =~= views.take(i as int));
            }
            if self.entries[i].expanded {
                paths.push(self.entries[i].path.clone());
            }
            i += 1;
        }
        proof {
            assert(views.take(i as int) =~= views);
        }
        paths
    }

    /// Toggle expand/collapse of the selected directory, and rebuild the
    /// list from what was found on disk.
    pub fn toggle_expand(&mut self, disk: Option<&DirNode>)
        ensures
            final(self)@ == old(self)@.toggle_expand(disk_view(disk)),
            !old(self)@.directory_selected() ==> *final(self) == *old(self),
    {
        proof {
            lemma_entry_views(self.entries@);
        }
        if self.selected < self.entries.len() {
            let is_dir = self.entries[self.selected].is_dir();
            if is_dir {
                let path = self.entries[self.selected].path.clone();
                let was_expanded = self.entries[self.selected].expanded;
                self.toggle_entry_expanded(&path, !was_expanded);
                self.rebuild_entries(disk);
            }
        }
    }

    /// Toggle the expanded state of an entry by path
    fn toggle_entry_expanded(&mut self, target_path: &String, expanded: bool)
        ensures
            final(self)@ == (TreeView {
                entries: with_expanded(old(self)@.entries, target_path@, expanded),
                ..old(self)@
            }),
    {
        let ghost views = entry_views(self.entries@);
        proof {
            lemma_entry_views(self.entries@);
        }
        let mut i: usize = 0;
        while i < self.entries.len()
            invariant
                i <= self.entries@.len(),
                *self == *old(self),
                views == entry_views(self.entries@),
                views.len() == self.entries@.len(),
                forall|k: int|
                    0 <= k < self.entries@.len() ==> views[k] == (#[trigger] self.entries@[k])@,
                first_at_path(views.take(i as int), target_path@) == i,
            decreases self.entries@.len() - i,
        {
            proof {
                let upto = views.take(i + 1);
                assert(upto.drop_last() =~= views.take(i as int));
            }
            if self.entries[i].path == *target_path {
                proof {
                    lemma_first_at_path_stays(views, target_path@, i + 1, i as int);
                }
                self.entries[i].expanded = expanded;
                proof {
                    lemma_entry_views(self.entries@);
                    let after = entry_views(self.entries@);
                    let wanted = with_expanded(views, target_path@, expanded);
                    assert forall|k: int| 0 <= k < after.len() implies after[k] == wanted[k] by {
                        assert(after[k] == self.entries@[k]@);
                    }
                    assert(after =~= wanted);
                }
                return ;
            }
            i += 1;
        }
        proof {
            assert(views.take(i as int) =~= views);
        }
    }

    /// Rebuild the entries list from what was found on disk, keeping
    /// expanded what was expanded.
    fn rebuild_entries(&mut self, disk: Option<&DirNode>)
        ensures
            final(self)@ == old(self)@.rebuild(disk_view(disk)),
    {
        let open_paths = self.expanded_paths();
        self.entries.clear();
        match disk {
            Some(node) => {
                let root_entry = self.rebuild_entry(node, 0, &open_paths, true);
                self.flatten_entry(&root_entry);
            },
            None => {},
        }
        self.clamp_selection();
    }

    /// Builds the entry for `node` at `depth`, expanded if its path is
    /// among `open_paths`, and then with its children built the same way.
    fn rebuild_entry(
        &self,
        node: &DirNode,
        depth: usize,
        open_paths: &Vec<String>,
        keep_open: bool,
    ) -> (entry: FileTreeEntry)
        ensures
            entry@ == rebuilt(node@, depth, path_views(open_paths@), self.show_hidden, keep_open),
        decreases node,
    {
        let ghost open = path_views(open_paths@);
        let expanded = if node.is_dir {
            contains_path(open_paths, &node.path)
        } else {
            keep_open
        };
        let mut entry = FileTreeEntry::from_path(node, depth);
        entry.expanded = expanded;
        if node.is_dir && expanded {
            let deeper = one_deeper(depth);
            let ghost nodes = node_views(node.listing@);
            let mut children: Vec<FileTreeEntry> = Vec::new();
            let mut i: usize = 0;
            proof {
                lemma_node_views(node.listing@);
            }
            while i < node.listing.len()
                invariant
                    i <= node.listing@.len(),
                    nodes == node_views(node.listing@),
                    nodes.len() == node.listing@.len(),
                    forall|k: int|
                        0 <= k < node.listing@.len() ==> nodes[k] == (#[trigger] node.listing@[k])@,
                    open == path_views(open_paths@),
                    entry_views(children@) == display_order(
                        rebuilt_all(nodes.take(i as int), deeper, open, self.show_hidden),
                    ),
                decreases node.listing@.len() - i,
            {
                let child_node = &node.listing[i];
                proof {
                    let upto = nodes.take(i + 1);
                    assert(upto.drop_last() =~= nodes.take(i as int));
                }
                if self.show_hidden || !starts_with_dot(child_node.name.as_str()) {
                    let child = self.rebuild_entry(child_node, deeper, open_paths, false);
                    insert_in_display_order(&mut children, child);
                    proof {
                        let built = rebuilt_all(nodes.take(i + 1), deeper, open, self.show_hidden);
                        assert(built.drop_last() =~= rebuilt_all(
                            nodes.take(i as int),
                            deeper,
                            open,
                            self.show_hidden,
                        ));
                    }
                }
                i += 1;
            }
            proof {
                assert(nodes.take(i as int) =~= nodes);
            }
            entry.children = children;
        }
        entry
    }

    /// Ensure the selected item is not above the viewport
    fn ensure_visible(&mut self)
        ensures
            *final(self) == (FileTree {
                scroll_offset: if old(self).selected < old(self).scroll_offset {
                    old(self).selected
                } else {
                    old(self).scroll_offset
                },
                ..*old(self)
            }),
    {
        if self.selected < self.scroll_offset {
            self.scroll_offset = self.selected;
        }
    }

    /// Adjust scroll to ensure selected item is visible given viewport height
    pub fn ensure_visible_with_height(&mut self, visible_height: usize)
        ensures
            *final(self) == (FileTree {
                scroll_offset: spec_scroll_into_view(
                    old(self).selected,
                    old(self).scroll_offset,
                    visible_height,
                ),
                ..*old(self)
            }),
    {
        if visible_height == 0 {
            return ;
        }
        if self.selected < self.scroll_offset {
            self.scroll_offset = self.selected;
        } else if self.selected - self.scroll_offset >= visible_height {
            self.scroll_offset = self.selected - visible_height + 1;
        }
    }

    /// Handle page up
    pub fn page_up(&mut self, page_size: usize)
        ensures
            final(self)@ == (TreeView {
                selected: if old(self).selected > page_size {
                    (old(self).selected - page_size) as usize
                } else {
                    0
                },
                ..old(self)@
            }).scrolled_to_selection(),
            final(self).entries == old(self).entries,
    {
        if self.selected > page_size {
            self.selected -= page_size;
        } else {
            self.selected = 0;
        }
        self.ensure_visible();
    }

    /// Handle page down
    pub fn page_down(&mut self, page_size: usize)
        ensures
            final(self)@ == (TreeView {
                selected: spec_paged_down(old(self).selected, page_size, old(self).entries@.len()),
                ..old(self)@
            }).scrolled_to_selection(),
            final(self).entries == old(self).entries,
    {
        let last = if self.entries.len() == 0 {
            0
        } else {
            self.entries.len() - 1
        };
        let target = self.selected.saturating_add(page_size);
        self.selected = if target <= last {
            target
        } else {
            last
        };
        self.ensure_visible();
    }

    /// Go to the first entry
    pub fn go_to_top(&mut self)
        ensures
            *final(self) == (FileTree { selected: 0, scroll_offset: 0, ..*old(self) }),
    {
        self.selected = 0;
        self.scroll_offset = 0;
    }

    /// Go to the last entry
    pub fn go_to_bottom(&mut self)
        ensures
            final(self)@ == (TreeView {
                selected: if old(self).entries@.len() > 0 {
                    (old(self).entries@.len() - 1) as usize
                } else {
                    old(self).selected
                },
                ..old(self)@
            }).scrolled_to_selection(),
            final(self).entries == old(self).entries,
    {
        if self.entries.len() > 0 {
            self.selected = self.entries.len() - 1;
        }
        self.ensure_visible();
    }

    /// Select an entry by index (from mouse click)
    pub fn select_index(&mut self, index: usize)
        ensures
            index < old(self).entries@.len() ==> *final(self) == (FileTree {
                selected: index,
                ..*old(self)
            }),
            index >= old(self).entries@.len() ==> *final(self) == *old(self),
    {
        if index < self.entries.len() {
            self.selected = index;
        }
    }

    /// Get the entry at a given visual row (accounting for scroll)
    pub fn entry_at_row(&self, row: usize) -> (entry: Option<&FileTreeEntry>)
        ensures
            entry.is_some() == (self.scroll_offset + row < self.entries@.len()),
            entry matches Some(e) ==> *e == self.entries@[self.scroll_offset + row],
    {
        match self.index_at_row(row) {
            Some(index) => Some(&self.entries[index]),
            None => None,
        }
    }

    /// Get the index at a given visual row
    pub fn index_at_row(&self, row: usize) -> (index: Option<usize>)
        ensures
            index.is_some() == (self.scroll_offset + row < self.entries@.len()),
            index matches Some(i) ==> i == self.scroll_offset + row,
    {
        if row < self.entries.len() && self.scroll_offset < self.entries.len() - row {
            Some(self.scroll_offset + row)
        } else {
            None
        }
    }
}

/// The scroll offset that brings `selected` into a viewport of
/// `visible_height` rows: the selection itself if it lies above the
/// viewport, the offset that puts it on the last row if it lies below,
/// and the old offset otherwise or if the viewport has no rows.
pub open spec fn spec_scroll_into_view(selected: usize, scroll_offset: usize, visible_height: usize)
    -> usize {
    if visible_height == 0 {
        scroll_offset
    } else if selected < scroll_offset {
        selected
    } else if selected >= scroll_offset + visible_height {
        (selected - visible_height + 1) as usize
    } else {
        scroll_offset
    }
}

/// The selection one page further down among `len` entries: `page_size`
/// on, but not past the last entry.
pub open spec fn spec_paged_down(selected: usize, page_size: usize, len: nat) -> usize {
    let last: int = if len == 0 {
        0
    } else {
        len - 1
    };
    if selected + page_size <= last {
        (selected + page_size) as usize
    } else {
        last as usize
    }
}

/// Once the first entry at a path has been found among the first `n`
/// entries, entries further on do not change which one it is.
pub proof fn lemma_first_at_path_stays(entries: Seq<EntryView>, path: Seq<char>, n: int, k: int)
    requires
        0 <= k < n <= entries.len(),
        first_at_path(entries.take(n), path) == k,
    ensures
        first_at_path(entries, path) == k,
    decreases entries.len() - n,
{
    if n < entries.len() {
        let upto = entries.take(n + 1);
        assert(upto.drop_last() =~= entries.take(n));
        lemma_first_at_path_stays(entries, path, n + 1, k);
    } else {
        assert(entries.take(n) =~= entries);
    }
}

} // verus!
