use gterm::app::events::{decide_shortcut, Shortcut};
use gterm::app::find::sort_latest_first;
use gterm::app::mouse::Screen;
use gterm::app::request::Request;
use gterm::app::App;
use gterm::editor::{Cursor, Selection};
use gterm::file_tree::DirNode;
use gterm::input::keyboard::KeyEvent;
use gterm::input::mouse::{MouseButton, MouseEvent, MouseEventKind};
use gterm::search::SearchMatch;
use gterm::terminal::keys::{KeyCode, KeyModifiers};
use gterm::ui::dialog::{Dialog, DirSnapshot, Found};
use gterm::ui::layout::{pane_at_position, Pane, Rect, ResizeTarget};
use gterm::ui::menu_bar::{menu_at_position, menu_bar_positions, MenuAction};
use gterm::ui::{editor, file_tree, search_bar};

fn file(dir: &str, name: &str) -> DirNode {
    DirNode { name: name.to_string(), path: format!("{}/{}", dir, name), is_dir: false, listing: vec![] }
}

fn project() -> DirNode {
    DirNode {
        name: "proj".to_string(),
        path: "/proj".to_string(),
        is_dir: true,
        listing: vec![
            file("/proj", "b.rs"),
            DirNode {
                name: "src".to_string(),
                path: "/proj/src".to_string(),
                is_dir: true,
                listing: vec![file("/proj/src", "main.rs")],
            },
            file("/proj", "a.rs"),
        ],
    }
}

fn app() -> App {
    App::new("/proj".to_string(), Some(&project()), true)
}

fn key(code: KeyCode) -> KeyEvent {
    KeyEvent { code, modifiers: KeyModifiers::none() }
}

fn ctrl(c: char) -> KeyEvent {
    KeyEvent { code: KeyCode::Char(c), modifiers: KeyModifiers::ctrl() }
}

fn alt(c: char) -> KeyEvent {
    KeyEvent { code: KeyCode::Char(c), modifiers: KeyModifiers::alt() }
}

fn shift(code: KeyCode) -> KeyEvent {
    KeyEvent { code, modifiers: KeyModifiers::shift() }
}

fn type_text(app: &mut App, text: &str) {
    for c in text.chars() {
        let code = if c == '\n' { KeyCode::Enter } else { KeyCode::Char(c) };
        assert_eq!(app.handle_key_event(key(code)), Request::Nothing);
    }
}

fn text(app: &App) -> String {
    app.active_document().unwrap().buffer.to_string()
}

fn screen() -> Option<Screen> {
    Some(Screen { cols: 100, rows: 40, percent_across: 0, percent_up: 0 })
}

fn at_percent(percent_across: u16, percent_up: u16) -> Option<Screen> {
    Some(Screen { cols: 100, rows: 40, percent_across, percent_up })
}

fn press(x: u16, y: u16) -> MouseEvent {
    MouseEvent { kind: MouseEventKind::Down(MouseButton::Left), column: x, row: y }
}

#[test]
fn a_new_application() {
    let a = app();
    assert!(!a.should_quit);
    assert_eq!(a.focused_pane, Pane::Editor);
    assert!(a.show_sidebar && a.show_editor && a.show_terminal);
    assert_eq!((a.sidebar_width_percent, a.terminal_height_percent), (20, 50));
    assert_eq!(a.documents.len(), 1);
    assert_eq!(a.active_doc, 0);
    assert_eq!(a.terminals.len(), 1);
    assert_eq!(a.file_tree.entries.len(), 4);
    assert_eq!(a.cwd, "/proj");
    assert!(!a.has_dialog());
    assert_eq!(a.menu_open, None);
    assert!(a.active_terminal().is_some());
    let b = App::new("/x".to_string(), None, false);
    assert!(b.terminals.is_empty());
    assert!(b.active_terminal().is_none());
    assert!(b.file_tree.entries.is_empty());
}

#[test]
fn terminals_of_the_application() {
    let mut a = App::new("/x".to_string(), None, false);
    for i in 0..10 {
        a.new_terminal(true);
        assert_eq!(a.terminals.len(), i + 1);
        assert_eq!(a.terminals.active, i);
    }
    a.new_terminal(true);
    assert_eq!(a.terminals.len(), 10);
    a.new_terminal(false);
    assert_eq!(a.terminals.len(), 10);
    a.switch_terminal(1);
    a.next_terminal();
    assert_eq!(a.terminals.active, 2);
    a.prev_terminal();
    a.prev_terminal();
    a.prev_terminal();
    assert_eq!(a.terminals.active, 9);
    a.close_terminal();
    assert_eq!((a.terminals.len(), a.terminals.active), (9, 8));
    a.switch_terminal(40);
    assert_eq!(a.terminals.active, 8);
    a.active_terminal_mut().unwrap().scroll_offset = 3;
    assert_eq!(a.terminals.terminals[8].scroll_offset, 3);
}

#[test]
fn terminal_resize_follows_the_pane() {
    let mut a = app();
    a.new_terminal(true);
    a.check_terminal_resize(&vec![true, true]);
    assert_eq!((a.terminals.terminals[0].cols, a.terminals.terminals[0].rows), (80, 24));
    a.terminal_area = Some(Rect { x: 20, y: 20, width: 70, height: 12 });
    a.check_terminal_resize(&vec![true, false]);
    assert_eq!((a.terminals.terminals[0].cols, a.terminals.terminals[0].rows), (70, 10));
    assert_eq!((a.terminals.terminals[1].cols, a.terminals.terminals[1].rows), (80, 24));
    a.terminal_area = Some(Rect { x: 20, y: 20, width: 70, height: 2 });
    a.check_terminal_resize(&vec![true, true]);
    assert_eq!((a.terminals.terminals[0].cols, a.terminals.terminals[0].rows), (70, 10));
}

#[test]
fn keys_in_the_terminal_pane_go_to_the_child() {
    let mut a = app();
    a.focused_pane = Pane::Terminal;
    assert_eq!(a.handle_key_event(key(KeyCode::Char('l'))), Request::WriteToTerminal(vec![b'l']));
    assert_eq!(a.handle_key_event(key(KeyCode::Enter)), Request::WriteToTerminal(vec![0x0d]));
    assert_eq!(a.handle_key_event(ctrl('c')), Request::WriteToTerminal(vec![0x03]));
    assert_eq!(a.handle_key_event(key(KeyCode::Up)), Request::WriteToTerminal(b"\x1b[A".to_vec()));
    assert_eq!(a.handle_key_event(shift(KeyCode::Char('A'))), Request::WriteToTerminal(vec![b'A']));
    assert_eq!(a.handle_key_event(key(KeyCode::Other)), Request::Nothing);
    assert_eq!(a.handle_terminal_key(key(KeyCode::F(2))), Request::Nothing);
    assert_eq!(a.handle_terminal_key(key(KeyCode::F(5))), Request::WriteToTerminal(b"\x1b[15~".to_vec()));
    let mut none = App::new("/x".to_string(), None, false);
    assert_eq!(none.handle_terminal_key(key(KeyCode::Char('x'))), Request::Nothing);
}

#[test]
fn shift_page_keys_scroll_the_terminal() {
    let mut a = app();
    a.focused_pane = Pane::Terminal;
    let mut out = Vec::new();
    for i in 0..60 {
        out.extend_from_slice(format!("{}\r\n", i).as_bytes());
    }
    a.active_terminal_mut().unwrap().read_output(&vec![out]).unwrap();
    assert_eq!(a.handle_key_event(shift(KeyCode::PageUp)), Request::Nothing);
    assert_eq!(a.active_terminal().unwrap().scroll_offset, 10);
    a.handle_key_event(shift(KeyCode::PageUp));
    a.handle_key_event(shift(KeyCode::PageDown));
    assert_eq!(a.active_terminal().unwrap().scroll_offset, 10);
    a.handle_key_event(shift(KeyCode::Home));
    assert_eq!(a.active_terminal().unwrap().scroll_offset, 37);
    // A key that is no typing leaves the view where it is.
    assert_eq!(a.handle_key_event(key(KeyCode::Left)), Request::WriteToTerminal(b"\x1b[D".to_vec()));
    assert_eq!(a.active_terminal().unwrap().scroll_offset, 37);
    // Typing returns to live output.
    assert_eq!(a.handle_key_event(key(KeyCode::Char('x'))), Request::WriteToTerminal(vec![b'x']));
    assert_eq!(a.active_terminal().unwrap().scroll_offset, 0);
    a.handle_key_event(shift(KeyCode::PageUp));
    a.handle_key_event(shift(KeyCode::End));
    assert_eq!(a.active_terminal().unwrap().scroll_offset, 0);
    let wheel_up = MouseEvent { kind: MouseEventKind::ScrollUp, column: 0, row: 0 };
    let wheel_down = MouseEvent { kind: MouseEventKind::ScrollDown, column: 0, row: 0 };
    a.handle_mouse_event(wheel_up, screen());
    assert_eq!(a.active_terminal().unwrap().scroll_offset, 3);
    a.handle_mouse_event(wheel_down, screen());
    a.handle_mouse_event(wheel_down, screen());
    assert_eq!(a.active_terminal().unwrap().scroll_offset, 0);
}

#[test]
fn terminal_shortcuts_work_in_the_terminal_pane_only() {
    let mut a = app();
    assert_eq!(decide_shortcut(Pane::Editor, ctrl('n')), None);
    assert_eq!(decide_shortcut(Pane::Terminal, ctrl('n')), Some(Shortcut::NewTerminal));
    assert_eq!(decide_shortcut(Pane::Terminal, alt('1')), Some(Shortcut::SwitchTerminal(0)));
    assert_eq!(decide_shortcut(Pane::Terminal, alt('9')), Some(Shortcut::SwitchTerminal(8)));
    assert_eq!(decide_shortcut(Pane::Terminal, alt('0')), None);
    a.focused_pane = Pane::Terminal;
    a.show_terminal = false;
    assert_eq!(a.handle_key_event(ctrl('n')), Request::OpenTerminal);
    assert!(a.show_terminal);
    a.new_terminal(true);
    a.new_terminal(true);
    assert_eq!(a.terminals.active, 2);
    a.handle_key_event(alt('1'));
    assert_eq!(a.terminals.active, 0);
    a.handle_key_event(alt(','));
    assert_eq!(a.terminals.active, 2);
    a.handle_key_event(alt('.'));
    assert_eq!(a.terminals.active, 0);
    assert_eq!(a.handle_key_event(ctrl('w')), Request::DropTerminal(0));
    assert_eq!(a.terminals.len(), 2);
    a.terminals.close(0);
    a.terminals.close(0);
    assert_eq!(a.handle_key_event(ctrl('w')), Request::Nothing);
    for _ in 0..10 {
        a.new_terminal(true);
    }
    assert_eq!(a.handle_key_event(ctrl('n')), Request::Nothing);
}

#[test]
fn shortcuts_that_work_everywhere() {
    let mut a = app();
    a.handle_key_event(ctrl('b'));
    assert!(!a.show_sidebar);
    a.handle_key_event(key(KeyCode::F(3)));
    assert_eq!(a.focused_pane, Pane::Editor);
    a.handle_key_event(ctrl('b'));
    a.handle_key_event(key(KeyCode::F(3)));
    assert_eq!(a.focused_pane, Pane::FileTree);
    a.handle_key_event(key(KeyCode::F(4)));
    assert_eq!(a.focused_pane, Pane::Terminal);
    a.handle_key_event(ctrl('t'));
    assert!(!a.show_terminal);
    a.handle_key_event(key(KeyCode::F(2)));
    assert_eq!(a.focused_pane, Pane::Editor);
    a.handle_key_event(key(KeyCode::F(4)));
    assert_eq!(a.focused_pane, Pane::Editor);
    a.handle_key_event(ctrl('e'));
    assert!(!a.show_editor);
    a.handle_key_event(ctrl('g'));
    assert!(matches!(a.dialog, Some(Dialog::GoToLine(_))));
    a.handle_key_event(key(KeyCode::Esc));
    assert!(a.dialog.is_none());
    a.handle_key_event(key(KeyCode::F(10)));
    assert_eq!((a.menu_open, a.menu_selected), (Some(0), Some(0)));
    a.close_menu();
    a.handle_key_event(alt('f'));
    assert_eq!(a.menu_open, Some(0));
    a.close_menu();
    a.handle_key_event(ctrl('q'));
    assert!(a.should_quit);
    // With another modifier held as well, the key is no shortcut.
    let mut b = app();
    let mut m = KeyModifiers::ctrl();
    m.shift = true;
    b.handle_key_event(KeyEvent { code: KeyCode::Char('q'), modifiers: m });
    assert!(!b.should_quit);
}

#[test]
fn focus_cycles_through_the_panes_that_are_shown() {
    let mut a = app();
    a.cycle_focus(true);
    assert_eq!(a.focused_pane, Pane::Terminal);
    a.cycle_focus(true);
    assert_eq!(a.focused_pane, Pane::FileTree);
    a.cycle_focus(true);
    assert_eq!(a.focused_pane, Pane::Editor);
    a.cycle_focus(false);
    assert_eq!(a.focused_pane, Pane::FileTree);
    a.cycle_focus(false);
    assert_eq!(a.focused_pane, Pane::Terminal);
    a.show_sidebar = false;
    a.cycle_focus(true);
    assert_eq!(a.focused_pane, Pane::Editor);
    a.focused_pane = Pane::FileTree;
    a.cycle_focus(true);
    assert_eq!(a.focused_pane, Pane::Terminal);
    a.show_terminal = false;
    a.cycle_focus(false);
    assert_eq!(a.focused_pane, Pane::Editor);
    a.cycle_focus(true);
    assert_eq!(a.focused_pane, Pane::Editor);
    a.show_sidebar = true;
    a.focused_pane = Pane::Terminal;
    a.cycle_focus(false);
    assert_eq!(a.focused_pane, Pane::Editor);
    // Tab cycles from anywhere but the editor, Shift+BackTab from anywhere.
    a.focused_pane = Pane::FileTree;
    a.handle_key_event(key(KeyCode::Tab));
    assert_eq!(a.focused_pane, Pane::Editor);
    a.handle_key_event(key(KeyCode::Tab));
    assert_eq!(a.focused_pane, Pane::Editor);
    assert_eq!(text(&a), "    ");
    a.handle_key_event(shift(KeyCode::BackTab));
    assert_eq!(a.focused_pane, Pane::FileTree);
}

#[test]
fn typing_and_moving_in_the_editor() {
    let mut a = app();
    type_text(&mut a, "hello\nworld");
    assert_eq!(text(&a), "hello\nworld");
    a.handle_key_event(key(KeyCode::Home));
    a.handle_key_event(shift(KeyCode::End));
    assert_eq!(a.active_document().unwrap().selected_text(), "world");
    assert_eq!(a.handle_key_event(ctrl('c')), Request::SetClipboard("world".to_string()));
    assert_eq!(a.handle_key_event(ctrl('x')), Request::SetClipboard("world".to_string()));
    assert_eq!(text(&a), "hello\n");
    assert_eq!(a.handle_key_event(ctrl('x')), Request::Nothing);
    assert_eq!(a.handle_key_event(ctrl('c')), Request::Nothing);
    assert_eq!(a.handle_key_event(ctrl('v')), Request::Paste);
    a.paste("there");
    assert_eq!(text(&a), "hello\nthere");
    a.handle_key_event(KeyEvent { code: KeyCode::Home, modifiers: KeyModifiers::ctrl() });
    assert_eq!(a.active_document().unwrap().cursor, Cursor::at(0, 0));
    a.handle_key_event(key(KeyCode::Delete));
    a.handle_key_event(key(KeyCode::Right));
    a.handle_key_event(key(KeyCode::Backspace));
    assert_eq!(text(&a), "llo\nthere");
    a.handle_key_event(key(KeyCode::Down));
    a.handle_key_event(key(KeyCode::Left));
    assert_eq!(a.active_document().unwrap().cursor, Cursor::at(0, 3));
    a.handle_key_event(key(KeyCode::Insert));
    assert!(!a.active_document().unwrap().insert_mode);
    a.handle_key_event(key(KeyCode::PageDown));
    assert_eq!(a.active_document().unwrap().cursor.line, 1);
    a.handle_key_event(key(KeyCode::PageUp));
    a.handle_key_event(key(KeyCode::Up));
    assert_eq!(a.active_document().unwrap().cursor.line, 0);
    a.handle_key_event(ctrl('a'));
    assert_eq!(a.active_document().unwrap().selected_text(), "llo\nthere");
    a.handle_key_event(KeyEvent { code: KeyCode::End, modifiers: KeyModifiers::ctrl() });
    assert_eq!(a.active_document().unwrap().cursor, Cursor::at(1, 5));
    // A character with Alt is not typed.
    a.handle_key_event(alt('z'));
    assert_eq!(text(&a), "llo\nthere");
}

#[test]
fn typing_at_the_edge_of_the_machine_is_dropped() {
    let mut a = app();
    a.active_document_mut().unwrap().cursor = Cursor::at(0, usize::MAX);
    a.active_document_mut().unwrap().selection = Selection::new(Cursor::at(0, usize::MAX));
    a.handle_key_event(key(KeyCode::Char('x')));
    a.handle_key_event(key(KeyCode::Enter));
    assert_eq!(text(&a), "");
    assert!(!a.active_document().unwrap().has_room_to_type());
}

#[test]
fn tabs() {
    let mut a = app();
    a.handle_key_event(ctrl('n'));
    a.new_file();
    assert_eq!((a.documents.len(), a.active_doc), (3, 2));
    a.next_tab();
    assert_eq!(a.active_doc, 0);
    a.prev_tab();
    assert_eq!(a.active_doc, 2);
    a.handle_key_event(KeyEvent { code: KeyCode::PageUp, modifiers: KeyModifiers::ctrl() });
    assert_eq!(a.active_doc, 1);
    a.handle_key_event(KeyEvent { code: KeyCode::PageDown, modifiers: KeyModifiers::ctrl() });
    assert_eq!(a.active_doc, 2);
    a.go_to_tab(1);
    assert_eq!(a.active_doc, 0);
    a.go_to_tab(0);
    assert_eq!(a.active_doc, 2);
    a.go_to_tab(4);
    assert_eq!(a.active_doc, 2);
    a.handle_key_event(alt('2'));
    assert_eq!(a.active_doc, 1);
    a.go_to_tab(3);
    a.close_current();
    assert_eq!((a.documents.len(), a.active_doc), (2, 1));
    a.go_to_tab(1);
    type_text(&mut a, "x");
    a.handle_key_event(ctrl('w'));
    assert_eq!((a.documents.len(), a.active_doc), (1, 0));
    type_text(&mut a, "y");
    a.close_current();
    assert_eq!(a.documents.len(), 1);
    assert_eq!(text(&a), "");
}

#[test]
fn opening_files() {
    let mut a = app();
    assert_eq!(a.find_open("/proj/a.rs"), None);
    assert!(!a.open_file("/proj/a.rs".to_string(), None));
    assert_eq!(a.documents.len(), 1);
    assert!(a.open_file("/proj/a.rs".to_string(), Some("fn a() {}")));
    assert_eq!((a.documents.len(), a.active_doc), (2, 1));
    assert_eq!(a.active_document().unwrap().filetype, "Rust");
    assert!(a.open_file("/proj/b.rs".to_string(), Some("fn b() {}")));
    assert_eq!(a.find_open("/proj/a.rs"), Some(1));
    // A file that is open already is not read again.
    assert!(a.open_file("/proj/a.rs".to_string(), None));
    assert_eq!((a.documents.len(), a.active_doc), (3, 1));
    assert_eq!(text(&a), "fn a() {}");
}

#[test]
fn saving_asks_the_owner() {
    let mut a = app();
    assert_eq!(a.handle_key_event(ctrl('s')), Request::ShowSaveAsDialog);
    let mut m = KeyModifiers::ctrl();
    m.shift = true;
    assert_eq!(
        a.handle_key_event(KeyEvent { code: KeyCode::Char('S'), modifiers: m }),
        Request::ShowSaveAsDialog
    );
    assert_eq!(a.handle_key_event(ctrl('o')), Request::ShowOpenDialog);
    a.open_file("/proj/a.rs".to_string(), Some(""));
    assert_eq!(a.handle_key_event(ctrl('s')), Request::SaveActive);
    assert_eq!(a.initial_save_name(), "a.rs");
}

#[test]
fn keys_in_the_file_tree() {
    let mut a = app();
    a.focused_pane = Pane::FileTree;
    a.handle_key_event(key(KeyCode::Down));
    a.handle_key_event(key(KeyCode::Char('j')));
    assert_eq!(a.file_tree.selected, 2);
    a.handle_key_event(key(KeyCode::Char('k')));
    assert_eq!(a.file_tree.selected, 1);
    assert_eq!(a.file_tree.selected_entry().unwrap().name, "src");
    assert_eq!(a.handle_key_event(key(KeyCode::Left)), Request::Nothing);
    let asked = a.handle_key_event(key(KeyCode::Enter));
    assert_eq!(asked, Request::ToggleTreeEntry("/proj/src".to_string()));
    assert_eq!(a.file_tree.entries.len(), 4);
    a.toggle_tree_entry(Some(&project()));
    assert_eq!(a.file_tree.entries.len(), 5);
    assert_eq!(a.handle_key_event(key(KeyCode::Char('h'))), Request::ToggleTreeEntry("/proj/src".to_string()));
    a.handle_key_event(key(KeyCode::End));
    assert_eq!(a.file_tree.selected, 4);
    assert_eq!(a.handle_key_event(key(KeyCode::Char('l'))), Request::OpenFile("/proj/b.rs".to_string()));
    assert_eq!(a.focused_pane, Pane::Editor);
    a.open_file("/proj/b.rs".to_string(), Some("b"));
    a.new_file();
    a.focused_pane = Pane::FileTree;
    assert_eq!(a.handle_key_event(key(KeyCode::Right)), Request::Nothing);
    assert_eq!(a.active_doc, 1);
    assert_eq!(a.focused_pane, Pane::Editor);
    a.focused_pane = Pane::FileTree;
    a.handle_key_event(key(KeyCode::Home));
    assert_eq!(a.file_tree.selected, 0);
    a.handle_key_event(key(KeyCode::PageDown));
    assert_eq!(a.file_tree.selected, 4);
    a.handle_key_event(key(KeyCode::PageUp));
    assert_eq!(a.file_tree.selected, 0);
    a.handle_key_event(key(KeyCode::Char('G')));
    assert_eq!(a.file_tree.selected, 4);
    a.handle_key_event(key(KeyCode::Char('g')));
    assert_eq!(a.file_tree.selected, 0);
    assert_eq!(a.handle_key_event(key(KeyCode::Char('x'))), Request::Nothing);
}

#[test]
fn searching_and_replacing() {
    let mut a = app();
    type_text(&mut a, "one two one\ntwo one");
    a.handle_key_event(ctrl('f'));
    assert!(a.search.active);
    assert_eq!(search_bar::height(&a), 1);
    type_text(&mut a, "one");
    assert_eq!(a.search.matches.len(), 3);
    assert_eq!(a.search.current_match, Some(0));
    assert_eq!(text(&a), "one two one\ntwo one");
    // The cursor stands at the end of the text: the search wraps.
    a.handle_key_event(key(KeyCode::Enter));
    assert_eq!(a.search.current_match, Some(0));
    assert_eq!(a.active_document().unwrap().selected_text(), "one");
    assert_eq!(a.active_document().unwrap().cursor, Cursor { line: 0, col: 3, wanted_col: 0 });
    a.handle_key_event(key(KeyCode::Down));
    assert_eq!(a.search.current_match, Some(1));
    a.handle_key_event(key(KeyCode::F(3)));
    assert_eq!(a.search.current_match, Some(2));
    // The cursor stands behind the match it selected, so the match
    // before the cursor is that same match.
    a.handle_key_event(shift(KeyCode::F(3)));
    assert_eq!(a.search.current_match, Some(2));
    a.active_document_mut().unwrap().move_to(1, 4, false);
    a.handle_key_event(shift(KeyCode::Up));
    assert_eq!(a.search.current_match, Some(1));
    assert_eq!(a.active_document().unwrap().cursor, Cursor { line: 0, col: 11, wanted_col: 8 });
    a.handle_key_event(key(KeyCode::Backspace));
    assert_eq!(a.search.query, "on");
    a.handle_key_event(ctrl('h'));
    assert!(a.search.replace_mode);
    assert_eq!(search_bar::height(&a), 2);
    a.handle_key_event(key(KeyCode::Tab));
    assert_eq!(a.search.replace_focus, 1);
    type_text(&mut a, "1x");
    a.handle_key_event(key(KeyCode::Backspace));
    assert_eq!(a.search.replace_text, "1");
    a.handle_key_event(key(KeyCode::Up));
    assert_eq!(a.search.replace_focus, 0);
    type_text(&mut a, "e");
    assert_eq!(a.search.query, "one");
    a.handle_key_event(key(KeyCode::Down));
    assert_eq!(a.search.replace_focus, 1);
    // Enter replaces the current match and goes on to the next.
    a.handle_key_event(key(KeyCode::Enter));
    assert_eq!(text(&a), "1 two one\ntwo one");
    assert_eq!(a.search.matches.len(), 2);
    a.handle_key_event(ctrl('a'));
    assert_eq!(text(&a), "1 two 1\ntwo 1");
    assert!(a.search.matches.is_empty());
    a.handle_key_event(ctrl('f'));
    assert!(!a.search.replace_mode);
    a.handle_key_event(ctrl('a'));
    a.handle_key_event(key(KeyCode::Esc));
    assert!(!a.search.active);
    assert_eq!(search_bar::height(&a), 0);
    // With the bar closed, F3 in the editor still finds while there is a
    // query. From anywhere, the bare key is the shortcut to the file tree.
    a.active_document_mut().unwrap().move_to_start(false);
    a.search.query = "two".to_string();
    a.do_search();
    a.handle_key_event(key(KeyCode::F(3)));
    assert_eq!(a.focused_pane, Pane::FileTree);
    assert_eq!(a.active_document().unwrap().selected_text(), "");
    a.handle_editor_key(key(KeyCode::F(3)));
    assert_eq!(a.active_document().unwrap().selected_text(), "two");
    assert_eq!(a.active_document().unwrap().cursor.line, 0);
    a.find_prev();
    assert_eq!(a.active_document().unwrap().cursor.line, 0);
    // Before the first match the search wraps to the last.
    a.active_document_mut().unwrap().move_to_start(false);
    a.find_prev();
    assert_eq!(a.active_document().unwrap().cursor, Cursor { line: 1, col: 3, wanted_col: 0 });
    a.replace_current();
    a.replace_all();
    assert_eq!(text(&a), "1 two 1\ntwo 1");
}

#[test]
fn replacing_with_text_that_holds_the_query() {
    let mut a = app();
    type_text(&mut a, "aa a");
    a.search.open_replace();
    a.search.query = "a".to_string();
    a.search.replace_text = "ab".to_string();
    a.do_search();
    assert_eq!(a.search.matches.len(), 3);
    a.replace_all();
    assert_eq!(text(&a), "abab ab");
    assert_eq!(a.search.matches.len(), 3);
}

#[test]
fn matches_are_sorted_from_the_last_start_to_the_first() {
    let m = |line, start_col, end_col| SearchMatch { line, start_col, end_col };
    let sorted = sort_latest_first(&vec![m(0, 1, 2), m(2, 0, 1), m(0, 5, 6), m(2, 0, 9), m(1, 3, 4)]);
    assert_eq!(sorted, vec![m(2, 0, 1), m(2, 0, 9), m(1, 3, 4), m(0, 5, 6), m(0, 1, 2)]);
    assert!(sort_latest_first(&vec![]).is_empty());
}

#[test]
fn menus_by_keyboard() {
    let mut a = app();
    a.open_menu(0);
    a.handle_key_event(key(KeyCode::Right));
    assert_eq!((a.menu_open, a.menu_selected), (Some(1), Some(0)));
    a.handle_key_event(key(KeyCode::Left));
    a.handle_key_event(key(KeyCode::Left));
    assert_eq!(a.menu_open, Some(5));
    a.next_menu();
    assert_eq!(a.menu_open, Some(0));
    a.prev_menu();
    a.next_menu();
    a.handle_key_event(key(KeyCode::Down));
    a.handle_key_event(key(KeyCode::Down));
    assert_eq!(a.menu_selected, Some(3));
    a.handle_key_event(key(KeyCode::Up));
    assert_eq!(a.menu_selected, Some(1));
    a.menu_select_prev();
    a.menu_select_prev();
    assert_eq!(a.menu_selected, Some(10));
    a.menu_select_next();
    assert_eq!(a.menu_selected, Some(0));
    // New file.
    assert_eq!(a.handle_key_event(key(KeyCode::Enter)), Request::Nothing);
    assert_eq!(a.documents.len(), 2);
    assert_eq!(a.menu_open, None);
    // Any other key closes the menu and is handled as usual.
    a.open_menu(2);
    a.handle_key_event(key(KeyCode::Char('z')));
    assert_eq!(a.menu_open, None);
    assert_eq!(text(&a), "z");
    a.open_menu(3);
    a.handle_key_event(key(KeyCode::Esc));
    assert_eq!(a.menu_open, None);
    a.menu_open = Some(usize::MAX);
    a.next_menu();
    assert_eq!(a.menu_open, Some(((usize::MAX % 6) + 1) % 6));
    a.menu_open = Some(9);
    a.menu_selected = Some(0);
    a.menu_select_next();
    a.menu_select_prev();
    assert_eq!(a.execute_menu_action(), Request::Nothing);
    assert_eq!(a.menu_open, Some(9));
}

#[test]
fn menu_actions() {
    let mut a = app();
    assert_eq!(a.do_action(MenuAction::OpenFile), Request::ShowOpenDialog);
    assert_eq!(a.do_action(MenuAction::Save), Request::Nothing);
    assert_eq!(a.do_action(MenuAction::SaveAs), Request::ShowSaveAsDialog);
    assert_eq!(a.do_action(MenuAction::SaveAll), Request::SaveAll);
    assert_eq!(a.do_action(MenuAction::Paste), Request::Paste);
    assert_eq!(a.do_action(MenuAction::Undo), Request::Nothing);
    assert_eq!(a.do_action(MenuAction::Separator), Request::Nothing);
    a.open_file("/proj/a.rs".to_string(), Some("abc"));
    assert_eq!(a.do_action(MenuAction::Save), Request::SaveActive);
    a.do_action(MenuAction::SelectAll);
    assert_eq!(a.do_action(MenuAction::Copy), Request::SetClipboard("abc".to_string()));
    assert_eq!(a.do_action(MenuAction::Cut), Request::SetClipboard("abc".to_string()));
    assert_eq!(text(&a), "");
    a.focused_pane = Pane::FileTree;
    a.do_action(MenuAction::Find);
    assert!(a.search.active && !a.search.replace_mode);
    assert_eq!(a.focused_pane, Pane::Editor);
    a.do_action(MenuAction::Replace);
    assert!(a.search.replace_mode);
    a.search.close();
    a.do_action(MenuAction::GoToLine);
    assert!(matches!(&a.dialog, Some(Dialog::GoToLine(d)) if d.total_lines == 1));
    a.close_dialog();
    a.do_action(MenuAction::About);
    assert!(matches!(a.dialog, Some(Dialog::About(_))));
    a.handle_key_event(key(KeyCode::Char('x')));
    assert!(a.dialog.is_none());
    a.do_action(MenuAction::ToggleSidebar);
    a.do_action(MenuAction::ToggleEditor);
    a.do_action(MenuAction::ToggleTerminal);
    assert!(!a.show_sidebar && !a.show_editor && !a.show_terminal);
    a.do_action(MenuAction::FocusFileTree);
    a.do_action(MenuAction::FocusTerminal);
    assert_eq!(a.focused_pane, Pane::Editor);
    assert_eq!(a.do_action(MenuAction::NewTerminal), Request::OpenTerminal);
    assert!(a.show_terminal);
    assert_eq!(a.focused_pane, Pane::Terminal);
    a.new_terminal(true);
    a.do_action(MenuAction::PrevTerminal);
    assert_eq!(a.terminals.active, 0);
    a.do_action(MenuAction::NextTerminal);
    assert_eq!(a.do_action(MenuAction::CloseTerminal), Request::DropTerminal(1));
    a.do_action(MenuAction::FocusEditor);
    assert_eq!(a.focused_pane, Pane::Editor);
    a.do_action(MenuAction::Close);
    a.do_action(MenuAction::NewFile);
    a.do_action(MenuAction::CloseAll);
    assert_eq!((a.documents.len(), a.active_doc), (1, 0));
    a.do_action(MenuAction::Quit);
    assert!(a.should_quit);
}

fn home() -> DirSnapshot {
    DirSnapshot {
        dir: "/proj".to_string(),
        parent: Some("/".to_string()),
        listing: project().listing,
    }
}

#[test]
fn the_file_open_dialog_takes_every_key() {
    let mut a = app();
    a.show_open_dialog(&home());
    assert_eq!(a.handle_key_event(ctrl('q')), Request::Nothing);
    assert!(!a.should_quit);
    a.handle_key_event(key(KeyCode::Down));
    assert_eq!(a.handle_key_event(key(KeyCode::Enter)), Request::ReadDirectory("/proj/src".to_string()));
    let src = DirSnapshot {
        dir: "/proj/src".to_string(),
        parent: Some("/proj".to_string()),
        listing: vec![file("/proj/src", "main.rs")],
    };
    a.dialog_enter_directory(&src);
    assert!(matches!(&a.dialog, Some(Dialog::FileOpen(d)) if d.current_dir == "/proj/src" && d.entries.len() == 2));
    assert_eq!(a.handle_key_event(key(KeyCode::Backspace)), Request::ReadParent("/proj/src".to_string()));
    a.dialog_go_up(None);
    a.dialog_go_up(Some(&home()));
    assert!(matches!(&a.dialog, Some(Dialog::FileOpen(d)) if d.current_dir == "/proj"));
    a.handle_key_event(key(KeyCode::PageDown));
    a.handle_key_event(key(KeyCode::PageUp));
    a.handle_key_event(key(KeyCode::Down));
    a.handle_key_event(key(KeyCode::Down));
    a.handle_key_event(key(KeyCode::Up));
    a.handle_key_event(key(KeyCode::Down));
    assert_eq!(a.handle_key_event(key(KeyCode::Enter)), Request::OpenFile("/proj/a.rs".to_string()));
    assert!(a.dialog.is_none());
    a.open_file("/proj/a.rs".to_string(), Some("a"));
    a.new_file();
    a.show_open_dialog(&home());
    a.handle_key_event(key(KeyCode::Tab));
    type_text(&mut a, "/proj/a.rx");
    a.handle_key_event(key(KeyCode::Backspace));
    a.handle_key_event(key(KeyCode::Char('s')));
    a.handle_key_event(key(KeyCode::Up));
    assert_eq!(a.handle_key_event(key(KeyCode::Enter)), Request::LookUp("/proj/a.rs".to_string()));
    assert_eq!(a.dialog_found(&Found::Missing), Request::Nothing);
    assert!(a.has_dialog());
    assert_eq!(a.dialog_found(&Found::File), Request::Nothing);
    assert!(!a.has_dialog());
    assert_eq!(a.active_doc, 1);
    a.show_open_dialog(&home());
    a.handle_key_event(key(KeyCode::Tab));
    type_text(&mut a, "/etc");
    assert_eq!(a.dialog_found(&Found::File), Request::OpenFile("/etc".to_string()));
    a.show_open_dialog(&home());
    let etc = DirSnapshot { dir: "/etc".to_string(), parent: Some("/".to_string()), listing: vec![] };
    assert_eq!(a.dialog_found(&Found::Directory(etc)), Request::Nothing);
    assert!(matches!(&a.dialog, Some(Dialog::FileOpen(d)) if d.current_dir == "/etc"));
    a.handle_key_event(key(KeyCode::Esc));
    assert!(!a.has_dialog());
    assert_eq!(a.dialog_found(&Found::File), Request::Nothing);
    assert_eq!(a.handle_dialog_key(key(KeyCode::Enter)), Request::Nothing);
}

#[test]
fn the_save_as_dialog() {
    let mut a = app();
    type_text(&mut a, "text");
    a.show_save_as_dialog(&home());
    assert!(matches!(&a.dialog, Some(Dialog::FileSaveAs(d)) if d.filename == "untitled"));
    for _ in 0..8 {
        a.handle_key_event(key(KeyCode::Backspace));
    }
    assert_eq!(a.handle_key_event(key(KeyCode::Enter)), Request::Nothing);
    assert!(a.has_dialog());
    a.handle_key_event(key(KeyCode::Tab));
    a.handle_key_event(key(KeyCode::Char('q')));
    a.handle_key_event(key(KeyCode::Down));
    assert_eq!(a.handle_key_event(key(KeyCode::Enter)), Request::ReadDirectory("/proj/src".to_string()));
    assert_eq!(a.handle_key_event(key(KeyCode::Backspace)), Request::ReadParent("/proj".to_string()));
    a.handle_key_event(key(KeyCode::PageDown));
    a.handle_key_event(key(KeyCode::PageUp));
    a.handle_key_event(key(KeyCode::Down));
    a.handle_key_event(key(KeyCode::Down));
    a.handle_key_event(key(KeyCode::Up));
    a.handle_key_event(key(KeyCode::Down));
    assert_eq!(a.handle_key_event(key(KeyCode::Enter)), Request::Nothing);
    assert!(matches!(&a.dialog, Some(Dialog::FileSaveAs(d)) if d.filename == "a.rs" && d.focus == 0));
    a.handle_key_event(key(KeyCode::Char('s')));
    assert_eq!(a.handle_key_event(key(KeyCode::Enter)), Request::SaveActiveAndRefreshTree);
    assert!(!a.has_dialog());
    let path = a.active_document().unwrap().path.clone().unwrap();
    assert!(path.starts_with("/proj") && path.ends_with("a.rss"));
    assert!(a.active_document().unwrap().modified);
}

#[test]
fn the_go_to_line_dialog() {
    let mut a = app();
    type_text(&mut a, "a\nb\nc\nd");
    a.show_go_to_line_dialog();
    assert!(matches!(&a.dialog, Some(Dialog::GoToLine(d)) if d.total_lines == 4));
    a.handle_key_event(key(KeyCode::Char('9')));
    a.handle_key_event(key(KeyCode::Enter));
    assert!(matches!(&a.dialog, Some(Dialog::GoToLine(d)) if d.error == Some("Line must be 1-4".to_string())));
    a.handle_key_event(key(KeyCode::Backspace));
    a.handle_key_event(key(KeyCode::Char('x')));
    a.handle_key_event(key(KeyCode::Char('2')));
    a.handle_key_event(key(KeyCode::Tab));
    a.handle_key_event(key(KeyCode::Enter));
    assert!(!a.has_dialog());
    assert_eq!(a.active_document().unwrap().cursor, Cursor::at(1, 0));
}

#[test]
fn the_menu_bar_under_the_mouse() {
    let mut a = app();
    a.menu_positions = menu_bar_positions();
    assert_eq!(menu_at_position(&a, 7), Some(1));
    assert_eq!(menu_at_position(&a, 99), None);
    a.handle_mouse_event(press(7, 0), screen());
    assert_eq!((a.menu_open, a.menu_selected), (Some(1), Some(0)));
    a.handle_mouse_event(press(1, 0), screen());
    assert_eq!(a.menu_open, Some(0));
    a.handle_mouse_event(press(1, 0), screen());
    assert_eq!(a.menu_open, None);
    a.handle_mouse_event(press(1, 0), screen());
    a.handle_mouse_event(press(99, 0), screen());
    assert_eq!(a.menu_open, None);
    // The items of an open menu start two rows below the top.
    a.open_menu(0);
    assert_eq!(a.handle_mouse_event(press(3, 3), screen()), Request::ShowOpenDialog);
    assert_eq!(a.menu_open, None);
    a.open_menu(3);
    a.handle_mouse_event(press(50, 2), screen());
    assert!(!a.show_sidebar);
    // A separator, the frame of the menu and any other place close it.
    a.open_menu(0);
    a.handle_mouse_event(press(3, 4), screen());
    assert_eq!(a.menu_open, None);
    a.open_menu(0);
    a.handle_mouse_event(press(3, 1), screen());
    assert_eq!(a.menu_open, None);
    assert_eq!(a.documents.len(), 1);
}

#[test]
fn clicks_on_the_panes() {
    let mut a = app();
    type_text(&mut a, "hello\nworld");
    a.file_tree_area = Some(Rect { x: 0, y: 2, width: 19, height: 30 });
    a.editor_area = Some(Rect { x: 20, y: 2, width: 80, height: 16 });
    assert_eq!(file_tree::entry_at_position(&a, 3, 4), Some(2));
    assert_eq!(file_tree::entry_at_position(&a, 3, 9), None);
    assert_eq!(file_tree::entry_at_position(&a, 19, 4), None);
    assert_eq!(editor::position_from_screen(&a, 27, 3), Some((1, 2)));
    assert_eq!(editor::position_from_screen(&a, 24, 3), None);
    assert_eq!(editor::position_from_screen(&a, 99, 17), Some((1, 5)));
    assert_eq!(editor::position_from_screen(&a, 25, 18), None);
    a.handle_mouse_event(press(3, 4), screen());
    assert_eq!(a.focused_pane, Pane::FileTree);
    assert_eq!(a.file_tree.selected, 2);
    a.handle_mouse_event(press(26, 2), screen());
    assert_eq!(a.focused_pane, Pane::Editor);
    assert_eq!(a.active_document().unwrap().cursor, Cursor::at(0, 1));
    let drag = MouseEvent { kind: MouseEventKind::Drag(MouseButton::Left), column: 28, row: 3 };
    a.handle_mouse_event(drag, screen());
    assert_eq!(a.active_document().unwrap().selected_text(), "ello\nwor");
    // The gutter is no position, but it lies in the editor's pane.
    a.focused_pane = Pane::Terminal;
    a.handle_mouse_event(press(22, 5), screen());
    assert_eq!(a.focused_pane, Pane::Editor);
    a.handle_mouse_event(press(50, 30), screen());
    assert_eq!(a.focused_pane, Pane::Terminal);
    a.handle_mouse_event(press(50, 39), screen());
    assert_eq!(a.focused_pane, Pane::Terminal);
    a.handle_mouse_event(press(5, 37), screen());
    assert_eq!(a.focused_pane, Pane::FileTree);
    // Without the size of the screen, a place that is neither an entry
    // nor a position in the text gives no pane the focus.
    a.handle_mouse_event(press(50, 30), None);
    assert_eq!(a.focused_pane, Pane::FileTree);
    a.handle_mouse_event(press(26, 2), None);
    assert_eq!(a.focused_pane, Pane::Editor);
    a.handle_mouse_event(press(20, 10), None);
    assert_eq!(a.resizing, None);
    a.focused_pane = Pane::FileTree;
    let other = MouseEvent { kind: MouseEventKind::Down(MouseButton::Right), column: 50, row: 5 };
    assert_eq!(a.handle_mouse_event(other, screen()), Request::Nothing);
    assert_eq!(a.focused_pane, Pane::FileTree);
}

#[test]
fn dividers_can_be_dragged() {
    let mut a = app();
    // 100 columns, 40 rows: the sidebar ends at column 20, the terminal
    // starts at row 20.
    assert_eq!(a.check_divider_click(20, 10, 100, 40), Some(ResizeTarget::Sidebar));
    assert_eq!(a.check_divider_click(19, 10, 100, 40), Some(ResizeTarget::Sidebar));
    assert_eq!(a.check_divider_click(21, 1, 100, 40), Some(ResizeTarget::Sidebar));
    assert_eq!(a.check_divider_click(22, 10, 100, 40), None);
    assert_eq!(a.check_divider_click(20, 0, 100, 40), None);
    assert_eq!(a.check_divider_click(50, 20, 100, 40), Some(ResizeTarget::Terminal));
    assert_eq!(a.check_divider_click(50, 21, 100, 40), Some(ResizeTarget::Terminal));
    assert_eq!(a.check_divider_click(50, 22, 100, 40), None);
    assert_eq!(a.check_divider_click(10, 20, 100, 40), None);
    a.handle_mouse_event(press(20, 10), screen());
    assert_eq!(a.resizing, Some(ResizeTarget::Sidebar));
    let drag = MouseEvent { kind: MouseEventKind::Drag(MouseButton::Left), column: 35, row: 10 };
    a.handle_mouse_event(drag, at_percent(35, 75));
    assert_eq!(a.sidebar_width_percent, 35);
    a.handle_mouse_event(drag, at_percent(80, 75));
    a.handle_mouse_event(drag, None);
    assert_eq!(a.sidebar_width_percent, 50);
    assert_eq!(a.sidebar_width_percent, 50);
    assert_eq!(a.terminal_height_percent, 50);
    let up = MouseEvent { kind: MouseEventKind::Up(MouseButton::Left), column: 35, row: 10 };
    a.handle_mouse_event(up, screen());
    assert_eq!(a.resizing, None);
    a.handle_resize_drag(ResizeTarget::Terminal, 5);
    assert_eq!(a.terminal_height_percent, 10);
    a.handle_resize_drag(ResizeTarget::Terminal, 99);
    assert_eq!(a.terminal_height_percent, 70);
    a.handle_resize_drag(ResizeTarget::Sidebar, 0);
    assert_eq!(a.sidebar_width_percent, 10);
}

#[test]
fn panes_by_position() {
    let a = app();
    let area = Rect { x: 0, y: 0, width: 100, height: 40 };
    assert_eq!(pane_at_position(&a, 5, 0, area), None);
    assert_eq!(pane_at_position(&a, 5, 39, area), None);
    assert_eq!(pane_at_position(&a, 5, 20, area), Some(Pane::FileTree));
    assert_eq!(pane_at_position(&a, 19, 20, area), Some(Pane::FileTree));
    assert_eq!(pane_at_position(&a, 20, 5, area), Some(Pane::Editor));
    assert_eq!(pane_at_position(&a, 20, 19, area), Some(Pane::Editor));
    assert_eq!(pane_at_position(&a, 20, 20, area), Some(Pane::Terminal));
    assert_eq!(pane_at_position(&a, 20, 38, area), Some(Pane::Terminal));
    let mut b = app();
    b.show_sidebar = false;
    b.show_terminal = false;
    assert_eq!(pane_at_position(&b, 0, 38, area), Some(Pane::Editor));
    let tiny = Rect { x: 0, y: 0, width: 10, height: 3 };
    assert_eq!(pane_at_position(&a, 0, 1, tiny), Some(Pane::Editor));
    let mut c = app();
    c.focus_pane_at(50, 30, 100, 40);
    assert_eq!(c.focused_pane, Pane::Terminal);
    c.focus_pane_at(50, 0, 100, 40);
    assert_eq!(c.focused_pane, Pane::Terminal);
    c.focus_pane_at(50, 5, 0, 0);
    assert_eq!(c.focused_pane, Pane::Terminal);
}

#[test]
fn the_wheel_scrolls_the_focused_pane() {
    let mut a = app();
    type_text(&mut a, "1\n2\n3\n4\n5");
    let up = MouseEvent { kind: MouseEventKind::ScrollUp, column: 0, row: 0 };
    let down = MouseEvent { kind: MouseEventKind::ScrollDown, column: 0, row: 0 };
    a.handle_mouse_event(down, screen());
    assert_eq!(a.active_document().unwrap().scroll_y, 3);
    a.handle_mouse_event(down, screen());
    assert_eq!(a.active_document().unwrap().scroll_y, 4);
    a.handle_mouse_event(up, screen());
    a.handle_mouse_event(up, screen());
    assert_eq!(a.active_document().unwrap().scroll_y, 0);
    a.focused_pane = Pane::FileTree;
    a.handle_mouse_event(down, screen());
    assert_eq!(a.file_tree.selected, 3);
    a.handle_mouse_event(down, screen());
    assert_eq!(a.file_tree.selected, 3);
    a.handle_mouse_event(up, screen());
    assert_eq!(a.file_tree.selected, 0);
}
