use gterm::file_tree::DirNode;
use gterm::highlighting::{
    syntax_name_for_filetype, HighlightStyle, LineHighlightCache, Rgb, StyledSpan,
};
use gterm::ui::dialog::{
    list_directory, parse_number, Chosen, DirSnapshot, FileOpenDialog, FileSaveAsDialog, Found,
    GoToLineDialog,
};
use gterm::ui::editor::{cell_style, char_styles, CellStyle};
use gterm::ui::layout::{calculate_gutter_width, sidebar_width, terminal_height, LayoutAreas, Rect};
use gterm::ui::terminal::{palette_color, PaletteColor};
use gterm::ui::menu_bar::{
    action_label, action_shortcut, item_at_position, menu_action_list, menu_bar_positions,
    menu_in_positions, menu_items, menu_title, step_down, step_up, MenuAction, MenuPosition,
    MENU_COUNT,
};

#[test]
fn rect_contains_its_cells_only() {
    let r = Rect { x: 2, y: 3, width: 4, height: 2 };
    assert!(r.contains(2, 3));
    assert!(r.contains(5, 4));
    assert!(!r.contains(6, 4));
    assert!(!r.contains(5, 5));
    assert!(!r.contains(1, 3));
    assert!(!r.contains(2, 2));
    let edge = Rect { x: 65530, y: 65530, width: 100, height: 100 };
    assert!(edge.contains(65535, 65535));
    assert!(!Rect { x: 0, y: 0, width: 0, height: 5 }.contains(0, 0));
    assert_eq!(LayoutAreas::default().editor, None);
}

#[test]
fn sidebar_width_is_a_share_within_bounds() {
    assert_eq!(sidebar_width(100, 20), 20);
    assert_eq!(sidebar_width(100, 10), 15);
    assert_eq!(sidebar_width(100, 90), 60);
    assert_eq!(sidebar_width(80, 20), 16);
    assert_eq!(sidebar_width(120, 33), 39);
    // On a screen too narrow for both, the room for the rest wins.
    assert_eq!(sidebar_width(50, 20), 10);
    assert_eq!(sidebar_width(30, 50), 0);
    assert_eq!(sidebar_width(65535, 65535), 65495);
}

#[test]
fn terminal_height_is_a_share_within_bounds() {
    assert_eq!(terminal_height(40, 50), 20);
    assert_eq!(terminal_height(40, 5), 5);
    assert_eq!(terminal_height(40, 90), 30);
    assert_eq!(terminal_height(22, 30), 6);
    assert_eq!(terminal_height(12, 50), 2);
    assert_eq!(terminal_height(0, 50), 0);
}

#[test]
fn gutter_makes_room_for_the_line_numbers() {
    assert_eq!(calculate_gutter_width(0), 5);
    assert_eq!(calculate_gutter_width(1), 5);
    assert_eq!(calculate_gutter_width(9999), 5);
    assert_eq!(calculate_gutter_width(10000), 6);
    assert_eq!(calculate_gutter_width(99999), 6);
    assert_eq!(calculate_gutter_width(100000), 7);
    assert_eq!(calculate_gutter_width(usize::MAX), 21);
}

#[test]
fn menus_hold_their_items() {
    assert_eq!(MENU_COUNT, 6);
    let titles: Vec<&str> = (0..7).filter_map(menu_title).collect();
    assert_eq!(titles, vec!["File", "Edit", "Search", "View", "Terminal", "Help"]);
    let file = menu_items(0);
    assert_eq!(file.len(), 11);
    assert_eq!(file[0].label, "New");
    assert_eq!(file[0].shortcut, Some("Ctrl+N"));
    assert_eq!(file[0].action, MenuAction::NewFile);
    assert!(file[0].enabled);
    assert_eq!(file[2].action, MenuAction::Separator);
    assert!(!file[2].enabled);
    assert_eq!(file[5].label, "Save All");
    assert_eq!(file[5].shortcut, None);
    assert_eq!(file[10].action, MenuAction::Quit);
    assert_eq!(menu_items(1).len(), 8);
    assert_eq!(menu_items(2).len(), 6);
    assert_eq!(menu_items(3).len(), 6);
    assert_eq!(menu_items(4).len(), 5);
    assert_eq!(menu_items(5).len(), 1);
    assert_eq!(menu_items(5)[0].label, "About gterm");
    assert!(menu_items(6).is_empty());
    assert_eq!(menu_action_list(4)[3], MenuAction::NextTerminal);
    assert_eq!(action_label(MenuAction::FocusFileTree), "Focus File Tree");
    assert_eq!(action_shortcut(MenuAction::PrevTerminal), Some("Alt+,"));
    assert_eq!(action_shortcut(MenuAction::Separator), None);
}

#[test]
fn item_at_position_skips_separators() {
    assert_eq!(item_at_position(0, 0), Some(0));
    assert_eq!(item_at_position(0, 2), None);
    assert_eq!(item_at_position(0, 10), Some(10));
    assert_eq!(item_at_position(0, 11), None);
    assert_eq!(item_at_position(6, 0), None);
    assert_eq!(item_at_position(5, 0), Some(0));
}

#[test]
fn stepping_through_a_menu_skips_separators_and_wraps() {
    let file = menu_action_list(0);
    assert_eq!(step_down(&file, 0), 1);
    assert_eq!(step_down(&file, 1), 3);
    assert_eq!(step_down(&file, 8), 10);
    assert_eq!(step_down(&file, 10), 0);
    assert_eq!(step_down(&file, usize::MAX), 0);
    assert_eq!(step_up(&file, 3), 1);
    assert_eq!(step_up(&file, 1), 0);
    assert_eq!(step_up(&file, 0), 10);
    assert_eq!(step_up(&file, 10), 8);
    assert_eq!(step_up(&file, 500), 10);
    let odd = vec![MenuAction::Separator, MenuAction::Cut, MenuAction::Separator];
    assert_eq!(step_down(&odd, 1), 1);
    assert_eq!(step_up(&odd, 1), 1);
    assert_eq!(step_up(&odd, 0), 1);
    let none = vec![MenuAction::Separator, MenuAction::Separator];
    assert_eq!(step_down(&none, 0), 2);
    assert_eq!(step_up(&none, 1), 0);
    assert_eq!(step_down(&Vec::new(), 0), 0);
}

#[test]
fn menu_titles_lie_side_by_side() {
    let positions = menu_bar_positions();
    assert_eq!(positions.len(), 6);
    assert_eq!(positions[0], MenuPosition { start: 0, end: 6, menu: 0 });
    assert_eq!(positions[1], MenuPosition { start: 6, end: 12, menu: 1 });
    assert_eq!(positions[2], MenuPosition { start: 12, end: 20, menu: 2 });
    assert_eq!(positions[5], MenuPosition { start: 36, end: 42, menu: 5 });
    assert_eq!(menu_in_positions(&positions, 0), Some(0));
    assert_eq!(menu_in_positions(&positions, 5), Some(0));
    assert_eq!(menu_in_positions(&positions, 6), Some(1));
    assert_eq!(menu_in_positions(&positions, 41), Some(5));
    assert_eq!(menu_in_positions(&positions, 42), None);
    assert_eq!(menu_in_positions(&Vec::new(), 0), None);
}

fn file(dir: &str, name: &str) -> DirNode {
    DirNode { name: name.to_string(), path: format!("{}/{}", dir, name), is_dir: false, listing: vec![] }
}

fn folder(dir: &str, name: &str) -> DirNode {
    DirNode { name: name.to_string(), path: format!("{}/{}", dir, name), is_dir: true, listing: vec![] }
}

fn home() -> DirSnapshot {
    DirSnapshot {
        dir: "/home/me".to_string(),
        parent: Some("/home".to_string()),
        listing: vec![
            file("/home/me", "b.txt"),
            folder("/home/me", "src"),
            file("/home/me", ".profile"),
            file("/home/me", "A.txt"),
            folder("/home/me", "Docs"),
        ],
    }
}

#[test]
fn browser_lists_parent_then_directories_then_files() {
    let snap = home();
    let entries = list_directory(&snap.parent, &snap.listing);
    let names: Vec<&str> = entries.iter().map(|e| e.name.as_str()).collect();
    assert_eq!(names, vec!["..", "Docs", "src", "A.txt", "b.txt"]);
    assert_eq!(entries[0].path, "/home");
    assert!(entries[0].is_dir);
    assert!(entries[2].is_dir);
    assert!(!entries[3].is_dir);
    assert_eq!(entries[4].path, "/home/me/b.txt");
    let top = list_directory(&None, &snap.listing);
    assert_eq!(top.len(), 4);
    assert_eq!(top[0].name, "Docs");
    assert!(list_directory(&None, &vec![]).is_empty());
}

#[test]
fn file_open_dialog_navigation() {
    let mut d = FileOpenDialog::new(&home());
    assert_eq!(d.current_dir, "/home/me");
    assert_eq!((d.selected, d.scroll), (0, 0));
    assert!(!d.input_focused);
    assert_eq!(d.input, "");
    d.move_up();
    assert_eq!(d.selected, 0);
    d.move_down();
    d.move_down();
    assert_eq!(d.selected, 2);
    assert_eq!(d.selected_entry().unwrap().name, "src");
    d.page_down(10);
    assert_eq!(d.selected, 4);
    d.move_down();
    assert_eq!(d.selected, 4);
    d.page_up(3);
    assert_eq!(d.selected, 1);
    d.page_up(3);
    assert_eq!(d.selected, 0);
    d.page_down(usize::MAX);
    assert_eq!(d.selected, 4);
    assert_eq!(d.enter_selected(), Chosen::File("/home/me/b.txt".to_string()));
    d.selected = 1;
    assert_eq!(d.enter_selected(), Chosen::Directory("/home/me/Docs".to_string()));
    d.selected = 9;
    assert_eq!(d.enter_selected(), Chosen::Nothing);
    assert!(d.selected_entry().is_none());
    d.toggle_focus();
    assert!(d.input_focused);
    d.handle_input('a');
    d.handle_input('b');
    d.handle_backspace();
    assert_eq!(d.input, "a");
}

#[test]
fn file_open_dialog_enters_directories() {
    let mut d = FileOpenDialog::new(&home());
    d.selected = 3;
    d.scroll = 2;
    let docs = DirSnapshot {
        dir: "/home/me/Docs".to_string(),
        parent: Some("/home/me".to_string()),
        listing: vec![file("/home/me/Docs", "guide.md")],
    };
    d.enter_directory(&docs);
    assert_eq!(d.current_dir, "/home/me/Docs");
    assert_eq!(d.input, "/home/me/Docs");
    assert_eq!((d.selected, d.scroll), (0, 0));
    assert_eq!(d.entries.len(), 2);
    d.go_up(None);
    assert_eq!(d.current_dir, "/home/me/Docs");
    d.go_up(Some(&home()));
    assert_eq!(d.current_dir, "/home/me");
    assert_eq!(d.input, "/home/me");
    let root = DirSnapshot { dir: "/".to_string(), parent: None, listing: vec![folder("", "etc")] };
    d.refresh_entries(&root.parent, &root.listing);
    assert_eq!(d.entries.len(), 1);
    assert_eq!(d.current_dir, "/home/me");
}

#[test]
fn file_open_dialog_goes_where_the_input_says() {
    let mut d = FileOpenDialog::new(&home());
    d.input = "/etc/hosts".to_string();
    assert_eq!(d.navigate_to_input(&Found::Missing), None);
    assert_eq!(d.current_dir, "/home/me");
    assert_eq!(d.navigate_to_input(&Found::File), Some("/etc/hosts".to_string()));
    let etc = DirSnapshot { dir: "/etc".to_string(), parent: Some("/".to_string()), listing: vec![] };
    d.selected = 2;
    assert_eq!(d.navigate_to_input(&Found::Directory(etc)), None);
    assert_eq!(d.current_dir, "/etc");
    assert_eq!(d.input, "/etc/hosts");
    assert_eq!(d.selected, 0);
    assert_eq!(d.entries.len(), 1);
}

#[test]
fn save_as_dialog() {
    let mut d = FileSaveAsDialog::new(&home(), "notes.txt".to_string());
    assert_eq!(d.filename, "notes.txt");
    assert_eq!(d.focus, 0);
    assert!(d.is_valid());
    assert!(d.get_save_path().ends_with("notes.txt"));
    assert!(d.get_save_path().starts_with("/home/me"));
    d.toggle_focus();
    assert_eq!(d.focus, 1);
    d.move_down();
    assert_eq!(d.enter_selected(), Some("/home/me/Docs".to_string()));
    assert_eq!(d.focus, 1);
    d.page_down(10);
    assert_eq!(d.selected_entry().unwrap().name, "b.txt");
    assert_eq!(d.enter_selected(), None);
    assert_eq!(d.filename, "b.txt");
    assert_eq!(d.focus, 0);
    d.page_up(1);
    d.move_up();
    assert_eq!(d.selected, 2);
    d.selected = 77;
    assert_eq!(d.enter_selected(), None);
    d.toggle_focus();
    d.toggle_focus();
    assert_eq!(d.focus, 0);
    d.focus = 5;
    d.toggle_focus();
    assert_eq!(d.focus, 0);
    d.go_up(Some(&DirSnapshot { dir: "/home".to_string(), parent: Some("/".to_string()), listing: vec![] }));
    assert_eq!(d.current_dir, "/home");
    assert_eq!(d.filename, "b.txt");
}

#[test]
fn save_as_needs_a_name_with_content() {
    let mut d = FileSaveAsDialog::new(&home(), String::new());
    assert!(!d.is_valid());
    d.handle_input(' ');
    d.handle_input('\t');
    d.handle_input('\u{a0}');
    d.handle_input('\u{3000}');
    assert!(!d.is_valid());
    d.handle_input('x');
    assert!(d.is_valid());
    d.handle_backspace();
    assert!(!d.is_valid());
    d.handle_input('\u{200b}');
    assert!(d.is_valid());
}

#[test]
fn parse_number_reads_what_the_standard_parser_reads() {
    for text in ["0", "7", "42", "+5", "007", "", "+", "-1", "1 ", " 1", "12a", "1+", "++1",
        "18446744073709551615", "18446744073709551616", "99999999999999999999999", "٣"] {
        assert_eq!(parse_number(text), text.parse::<usize>().ok());
    }
}

#[test]
fn go_to_line_dialog() {
    let mut d = GoToLineDialog::new(120);
    assert_eq!(d.get_line_number(), None);
    assert_eq!(d.error, Some("Enter a line number".to_string()));
    d.handle_input('x');
    assert_eq!(d.input, "");
    assert!(d.error.is_some());
    d.handle_input('0');
    assert_eq!(d.error, None);
    assert_eq!(d.get_line_number(), None);
    assert_eq!(d.error, Some("Line number must be at least 1".to_string()));
    d.handle_backspace();
    assert_eq!(d.error, None);
    d.handle_input('1');
    d.handle_input('2');
    d.handle_input('0');
    assert_eq!(d.get_line_number(), Some(119));
    assert_eq!(d.error, None);
    d.handle_input('0');
    assert_eq!(d.get_line_number(), None);
    assert_eq!(d.error, Some("Line must be 1-120".to_string()));
    d.input = "12x".to_string();
    assert_eq!(d.get_line_number(), None);
    assert_eq!(d.error, Some("Invalid number".to_string()));
    d.input = "1".to_string();
    assert_eq!(d.get_line_number(), Some(0));
}

#[test]
fn syntax_names() {
    assert_eq!(syntax_name_for_filetype("Rust"), Some("Rust"));
    assert_eq!(syntax_name_for_filetype("Shell"), Some("Bourne Again Shell (bash)"));
    assert_eq!(syntax_name_for_filetype("JavaScript (React)"), Some("JavaScript (JSX)"));
    assert_eq!(syntax_name_for_filetype("TypeScript (React)"), Some("TypeScriptReact"));
    assert_eq!(syntax_name_for_filetype("Makefile"), Some("Makefile"));
    assert_eq!(syntax_name_for_filetype("Plain Text"), None);
    assert_eq!(syntax_name_for_filetype("rust"), None);
}

fn span(text: &str) -> Vec<StyledSpan> {
    vec![StyledSpan { text: text.to_string(), style: HighlightStyle::default() }]
}

#[test]
fn highlight_cache() {
    let mut cache = LineHighlightCache::new(4, "Rust", "dark");
    assert_eq!(cache.lines.len(), 4);
    assert_eq!(cache.dirty, vec![true; 4]);
    assert!(cache.get(0).is_none());
    cache.set(1, span("a"));
    cache.set(2, span("b"));
    cache.set(9, span("z"));
    assert_eq!(cache.get(1).unwrap()[0].text, "a");
    assert!(cache.get(0).is_none());
    assert!(cache.get(9).is_none());
    cache.set(0, span("0"));
    cache.set(3, span("3"));
    cache.mark_dirty(2);
    assert_eq!(cache.dirty, vec![false, false, true, true]);
    assert!(cache.get(2).is_none());
    assert!(cache.get(1).is_some());
    cache.mark_dirty(7);
    assert_eq!(cache.dirty, vec![false, false, true, true]);
    cache.check_invalidation("Rust", "dark");
    assert_eq!(cache.dirty, vec![false, false, true, true]);
    cache.check_invalidation("Rust", "light");
    assert_eq!(cache.dirty, vec![true; 4]);
    assert_eq!(cache.theme_name, "light");
    cache.set(0, span("0"));
    cache.check_invalidation("C", "light");
    assert_eq!(cache.syntax_name, "C");
    assert!(cache.get(0).is_none());
    cache.set(0, span("0"));
    cache.resize(2);
    assert_eq!(cache.dirty, vec![false, true]);
    assert_eq!(cache.lines.len(), 2);
    cache.resize(3);
    assert_eq!(cache.dirty, vec![false, true, true]);
    assert!(cache.lines[2].is_none());
    cache.mark_all_dirty();
    assert_eq!(cache.dirty, vec![true; 3]);
    let style = HighlightStyle { fg: Some(Rgb { r: 1, g: 2, b: 3 }), ..HighlightStyle::default() };
    assert_eq!(style.fg.unwrap().g, 2);
    assert_eq!(StyledSpan::default().text, "");
}

#[test]
fn palette_colors() {
    assert_eq!(palette_color(0), PaletteColor::Named(0));
    assert_eq!(palette_color(15), PaletteColor::Named(15));
    assert_eq!(palette_color(16), PaletteColor::Rgb(Rgb { r: 0, g: 0, b: 0 }));
    assert_eq!(palette_color(21), PaletteColor::Rgb(Rgb { r: 0, g: 0, b: 255 }));
    assert_eq!(palette_color(196), PaletteColor::Rgb(Rgb { r: 255, g: 0, b: 0 }));
    assert_eq!(palette_color(110), PaletteColor::Rgb(Rgb { r: 102, g: 153, b: 204 }));
    assert_eq!(palette_color(231), PaletteColor::Rgb(Rgb { r: 255, g: 255, b: 255 }));
    assert_eq!(palette_color(232), PaletteColor::Rgb(Rgb { r: 8, g: 8, b: 8 }));
    assert_eq!(palette_color(255), PaletteColor::Rgb(Rgb { r: 238, g: 238, b: 238 }));
}

#[test]
fn the_dark_theme() {
    let theme = gterm::theme::Theme::dark();
    assert_eq!(theme.bg, Rgb { r: 30, g: 30, b: 30 });
    assert_eq!(theme.statusbar_bg, Rgb { r: 0, g: 122, b: 204 });
    assert_eq!(theme.selection_bg, Rgb { r: 38, g: 79, b: 120 });
    assert_eq!(theme.tree_dir, Rgb { r: 220, g: 220, b: 170 });
    assert_eq!(theme.tree_selected_bg, Rgb { r: 62, g: 62, b: 62 });
    assert_eq!(theme.border_focused, theme.statusbar_bg);
}

#[test]
fn cell_styles_of_the_editor() {
    let theme = gterm::theme::Theme::dark();
    let red = Rgb { r: 200, g: 0, b: 0 };
    let gray = Rgb { r: 9, g: 9, b: 9 };
    let syntax = HighlightStyle { fg: Some(red), bg: Some(gray), bold: true, italic: true, underline: true };
    let plain = HighlightStyle::default();
    assert_eq!(
        cell_style(&theme, syntax, true, true, true),
        CellStyle { fg: theme.editor_bg, bg: theme.cursor, bold: false, italic: false }
    );
    assert_eq!(
        cell_style(&theme, syntax, false, true, true),
        CellStyle { fg: red, bg: theme.selection_bg, bold: false, italic: false }
    );
    assert_eq!(
        cell_style(&theme, syntax, false, false, true),
        CellStyle { fg: red, bg: theme.line_highlight, bold: true, italic: true }
    );
    assert_eq!(
        cell_style(&theme, syntax, false, false, false),
        CellStyle { fg: red, bg: gray, bold: true, italic: true }
    );
    assert_eq!(
        cell_style(&theme, plain, false, false, false),
        CellStyle { fg: theme.fg, bg: theme.editor_bg, bold: false, italic: false }
    );
    assert_eq!(
        cell_style(&theme, plain, false, true, false),
        CellStyle { fg: theme.fg, bg: theme.selection_bg, bold: false, italic: false }
    );
}

#[test]
fn styles_of_the_characters_of_a_line() {
    let a = HighlightStyle { bold: true, ..HighlightStyle::default() };
    let b = HighlightStyle { italic: true, ..HighlightStyle::default() };
    let spans = vec![
        StyledSpan { text: "fn".to_string(), style: a },
        StyledSpan { text: String::new(), style: b },
        StyledSpan { text: " é".to_string(), style: b },
    ];
    let plain = HighlightStyle::default();
    assert_eq!(char_styles(&spans, 4), vec![a, a, b, b]);
    assert_eq!(char_styles(&spans, 6), vec![a, a, b, b, plain, plain]);
    assert_eq!(char_styles(&spans, 3), vec![a, a, b]);
    assert_eq!(char_styles(&spans, 0), vec![]);
    assert_eq!(char_styles(&vec![], 2), vec![plain, plain]);
}
