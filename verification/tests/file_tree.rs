use gterm::file_tree::order::{insert_in_display_order, shown_first};
use gterm::file_tree::{DirNode, EntryKind, FileTree, FileTreeEntry};

fn file(dir: &str, name: &str) -> DirNode {
    DirNode { name: name.to_string(), path: format!("{}/{}", dir, name), is_dir: false, listing: vec![] }
}

fn dir(parent: &str, name: &str, listing: Vec<DirNode>) -> DirNode {
    DirNode { name: name.to_string(), path: format!("{}/{}", parent, name), is_dir: true, listing }
}

fn project() -> DirNode {
    DirNode {
        name: "proj".to_string(),
        path: "/proj".to_string(),
        is_dir: true,
        listing: vec![
            file("/proj", "zeta.txt"),
            file("/proj", ".hidden"),
            dir(
                "/proj",
                "src",
                vec![
                    file("/proj/src", "main.rs"),
                    dir("/proj/src", "ui", vec![file("/proj/src/ui", "mod.rs")]),
                    file("/proj/src", "App.rs"),
                ],
            ),
            file("/proj", "Alpha.md"),
            dir("/proj", "Docs", vec![file("/proj/Docs", "guide.md")]),
            dir("/proj", ".git", vec![]),
        ],
    }
}

fn names(tree: &FileTree) -> Vec<String> {
    tree.entries.iter().map(|e| format!("{}{}", " ".repeat(e.depth), e.name)).collect()
}

fn tree_of(n: usize) -> FileTree {
    let listing = (0..n.saturating_sub(1)).map(|i| file("/r", &format!("f{:03}", i))).collect();
    let root = DirNode { name: "r".to_string(), path: "/r".to_string(), is_dir: true, listing };
    if n == 0 {
        FileTree::new("/r".to_string(), false, None)
    } else {
        FileTree::new("/r".to_string(), false, Some(&root))
    }
}

#[test]
fn entry_from_path() {
    let e = FileTreeEntry::from_path(&file("/proj", "a.txt"), 3);
    assert_eq!(e.name, "a.txt");
    assert_eq!(e.path, "/proj/a.txt");
    assert_eq!(e.kind, EntryKind::File);
    assert_eq!(e.depth, 3);
    assert!(!e.expanded);
    assert!(e.children.is_empty());
    assert!(!e.is_dir());
    let d = FileTreeEntry::from_path(&project(), 0);
    assert!(d.is_dir());
    assert!(d.children.is_empty());
}

#[test]
fn load_children_filters_and_sorts() {
    let node = project();
    let mut root = FileTreeEntry::from_path(&node, 0);
    root.load_children(&node.listing, false);
    let shown: Vec<&str> = root.children.iter().map(|c| c.name.as_str()).collect();
    assert_eq!(shown, vec!["Docs", "src", "Alpha.md", "zeta.txt"]);
    assert!(root.children.iter().all(|c| c.depth == 1 && !c.expanded && c.children.is_empty()));
    root.load_children(&node.listing, true);
    let shown: Vec<&str> = root.children.iter().map(|c| c.name.as_str()).collect();
    assert_eq!(shown, vec![".git", "Docs", "src", ".hidden", "Alpha.md", "zeta.txt"]);
}

#[test]
fn load_children_leaves_a_file_alone() {
    let node = file("/proj", "a.txt");
    let mut e = FileTreeEntry::from_path(&node, 1);
    e.load_children(&project().listing, true);
    assert!(e.children.is_empty());
}

#[test]
fn entries_that_differ_only_in_case_keep_their_order() {
    let a = FileTreeEntry::from_path(&file("/d", "readme"), 1);
    let b = FileTreeEntry::from_path(&file("/d", "README"), 1);
    let c = FileTreeEntry::from_path(&file("/d", "Readme"), 1);
    assert!(shown_first(&a, &b) && shown_first(&b, &a));
    let mut sorted = Vec::new();
    insert_in_display_order(&mut sorted, a);
    insert_in_display_order(&mut sorted, b);
    insert_in_display_order(&mut sorted, c);
    let shown: Vec<&str> = sorted.iter().map(|e| e.name.as_str()).collect();
    assert_eq!(shown, vec!["readme", "README", "Readme"]);
}

#[test]
fn display_order_compares_without_case_and_puts_prefixes_first() {
    let e = |n: &str| FileTreeEntry::from_path(&file("/d", n), 1);
    assert!(shown_first(&e("abc"), &e("ABD")));
    assert!(!shown_first(&e("ABD"), &e("abc")));
    assert!(shown_first(&e("ab"), &e("ABC")));
    assert!(!shown_first(&e("abc"), &e("AB")));
    assert!(shown_first(&e("B"), &e("é")));
    let d = FileTreeEntry::from_path(&dir("/d", "zzz", vec![]), 1);
    assert!(shown_first(&d, &e("aaa")));
    assert!(!shown_first(&e("aaa"), &d));
}

#[test]
fn new_tree_shows_root_and_children() {
    let root = project();
    let tree = FileTree::new("/proj".to_string(), false, Some(&root));
    assert_eq!(names(&tree), vec!["proj", " Docs", " src", " Alpha.md", " zeta.txt"]);
    assert!(tree.entries[0].expanded);
    assert!(!tree.entries[1].expanded);
    assert_eq!(tree.selected, 0);
    assert_eq!(tree.scroll_offset, 0);
    assert_eq!(tree.root, "/proj");
    assert_eq!(tree.selected_entry().unwrap().name, "proj");
}

#[test]
fn tree_without_a_root_is_empty() {
    let mut tree = FileTree::new("/gone".to_string(), false, None);
    assert!(tree.entries.is_empty());
    assert!(tree.selected_entry().is_none());
    tree.move_down();
    tree.move_up();
    tree.page_down(5);
    tree.page_up(5);
    tree.go_to_bottom();
    tree.go_to_top();
    tree.select_index(0);
    tree.toggle_expand(None);
    tree.ensure_visible_with_height(10);
    assert_eq!(tree.selected, 0);
    assert_eq!(tree.entry_at_row(0).map(|e| e.name.clone()), None);
    assert_eq!(tree.index_at_row(0), None);
}

#[test]
fn root_that_is_a_file_stands_alone() {
    let node = file("", "notes.txt");
    let tree = FileTree::new("/notes.txt".to_string(), false, Some(&node));
    assert_eq!(names(&tree), vec!["notes.txt"]);
}

#[test]
fn toggle_expand_opens_and_closes_a_directory() {
    let root = project();
    let mut tree = FileTree::new("/proj".to_string(), false, Some(&root));
    tree.select_index(2);
    tree.toggle_expand(Some(&root));
    assert_eq!(
        names(&tree),
        vec!["proj", " Docs", " src", "  ui", "  App.rs", "  main.rs", " Alpha.md", " zeta.txt"]
    );
    assert_eq!(tree.expanded_paths(), vec!["/proj".to_string(), "/proj/src".to_string()]);
    tree.select_index(3);
    tree.toggle_expand(Some(&root));
    assert_eq!(
        names(&tree),
        vec!["proj", " Docs", " src", "  ui", "   mod.rs", "  App.rs", "  main.rs", " Alpha.md", " zeta.txt"]
    );
    // Closing the outer directory hides the inner one, which stays open
    // for the next time only while it is shown.
    tree.select_index(2);
    tree.toggle_expand(Some(&root));
    assert_eq!(names(&tree), vec!["proj", " Docs", " src", " Alpha.md", " zeta.txt"]);
    tree.toggle_expand(Some(&root));
    assert_eq!(
        names(&tree),
        vec!["proj", " Docs", " src", "  ui", "  App.rs", "  main.rs", " Alpha.md", " zeta.txt"]
    );
}

#[test]
fn toggle_expand_on_a_file_does_nothing() {
    let root = project();
    let mut tree = FileTree::new("/proj".to_string(), false, Some(&root));
    tree.select_index(3);
    tree.toggle_expand(None);
    assert_eq!(names(&tree), vec!["proj", " Docs", " src", " Alpha.md", " zeta.txt"]);
}

#[test]
fn collapsing_the_root_leaves_only_the_root() {
    let root = project();
    let mut tree = FileTree::new("/proj".to_string(), false, Some(&root));
    tree.select_index(4);
    tree.select_index(0);
    tree.toggle_expand(Some(&root));
    assert_eq!(names(&tree), vec!["proj"]);
    assert!(!tree.entries[0].expanded);
    tree.toggle_expand(Some(&root));
    assert_eq!(names(&tree), vec!["proj", " Docs", " src", " Alpha.md", " zeta.txt"]);
}

#[test]
fn refresh_collapses_and_clamps_the_selection() {
    let root = project();
    let mut tree = FileTree::new("/proj".to_string(), true, Some(&root));
    assert_eq!(tree.entries.len(), 7);
    tree.select_index(3);
    tree.toggle_expand(Some(&root));
    tree.go_to_bottom();
    assert_eq!(tree.selected, 9);
    tree.show_hidden = false;
    tree.refresh(Some(&root));
    assert_eq!(names(&tree), vec!["proj", " Docs", " src", " Alpha.md", " zeta.txt"]);
    assert_eq!(tree.selected, 4);
    tree.refresh(None);
    assert!(tree.entries.is_empty());
    assert_eq!(tree.selected, 4);
}

#[test]
fn moving_the_selection() {
    let mut tree = tree_of(5);
    tree.move_up();
    assert_eq!(tree.selected, 0);
    tree.move_down();
    tree.move_down();
    assert_eq!(tree.selected, 2);
    tree.go_to_bottom();
    assert_eq!(tree.selected, 4);
    tree.move_down();
    assert_eq!(tree.selected, 4);
    tree.scroll_offset = 3;
    tree.move_up();
    assert_eq!((tree.selected, tree.scroll_offset), (3, 3));
    tree.move_up();
    assert_eq!((tree.selected, tree.scroll_offset), (2, 2));
    tree.go_to_top();
    assert_eq!((tree.selected, tree.scroll_offset), (0, 0));
}

#[test]
fn paging_through_the_tree() {
    let mut tree = tree_of(30);
    tree.page_down(10);
    assert_eq!(tree.selected, 10);
    tree.page_down(10);
    tree.page_down(10);
    assert_eq!(tree.selected, 29);
    tree.page_down(usize::MAX);
    assert_eq!(tree.selected, 29);
    tree.scroll_offset = 25;
    tree.page_up(10);
    assert_eq!((tree.selected, tree.scroll_offset), (19, 19));
    tree.page_up(19);
    assert_eq!(tree.selected, 0);
    tree.page_up(1);
    assert_eq!((tree.selected, tree.scroll_offset), (0, 0));
}

#[test]
fn ensure_visible_with_height_scrolls_both_ways() {
    let mut tree = tree_of(50);
    tree.select_index(30);
    tree.ensure_visible_with_height(10);
    assert_eq!(tree.scroll_offset, 21);
    tree.select_index(25);
    tree.ensure_visible_with_height(10);
    assert_eq!(tree.scroll_offset, 21);
    tree.select_index(5);
    tree.ensure_visible_with_height(10);
    assert_eq!(tree.scroll_offset, 5);
    tree.select_index(40);
    tree.ensure_visible_with_height(0);
    assert_eq!(tree.scroll_offset, 5);
}

#[test]
fn rows_map_to_entries_through_the_scroll_offset() {
    let mut tree = tree_of(10);
    tree.scroll_offset = 4;
    assert_eq!(tree.index_at_row(0), Some(4));
    assert_eq!(tree.index_at_row(5), Some(9));
    assert_eq!(tree.index_at_row(6), None);
    assert_eq!(tree.index_at_row(usize::MAX), None);
    assert_eq!(tree.entry_at_row(1).unwrap().name, "f004");
    assert!(tree.entry_at_row(6).is_none());
    tree.select_index(10);
    assert_eq!(tree.selected, 0);
    tree.select_index(9);
    assert_eq!(tree.selected, 9);
}

#[test]
fn clone_is_deep() {
    let node = project();
    let mut root = FileTreeEntry::from_path(&node, 0);
    root.load_children(&node.listing, false);
    let copy = root.clone();
    root.children.clear();
    assert_eq!(copy.children.len(), 4);
    assert_eq!(copy.children[1].name, "src");
    assert_eq!(copy.path, "/proj");
}
