use gterm::terminal::keys::{encode_char, encode_key, KeyCode, KeyModifiers};
use gterm::terminal::registry::{RegistryError, TerminalRegistry, DEFAULT_COLS, DEFAULT_ROWS};
use gterm::terminal::session::{Terminal, TerminalError, SCROLLBACK_LINES};

fn plain() -> KeyModifiers {
    KeyModifiers::none()
}

fn ctrl_alt() -> KeyModifiers {
    let mut m = KeyModifiers::none();
    m.control = true;
    m.alt = true;
    m
}

#[test]
fn ctrl_letters_give_control_bytes() {
    assert_eq!(encode_key(KeyCode::Char('a'), KeyModifiers::ctrl()), Some(vec![0x01]));
    assert_eq!(encode_key(KeyCode::Char('z'), KeyModifiers::ctrl()), Some(vec![0x1a]));
    assert_eq!(encode_key(KeyCode::Char('A'), KeyModifiers::ctrl()), Some(vec![0x01]));
    assert_eq!(encode_key(KeyCode::Char('Z'), KeyModifiers::ctrl()), Some(vec![0x1a]));
    assert_eq!(encode_key(KeyCode::Char('c'), KeyModifiers::ctrl()), Some(vec![0x03]));
}

#[test]
fn ctrl_wins_over_alt_for_letters() {
    assert_eq!(encode_key(KeyCode::Char('c'), ctrl_alt()), Some(vec![0x03]));
}

#[test]
fn ctrl_with_a_non_letter_sends_the_character() {
    assert_eq!(encode_key(KeyCode::Char('1'), KeyModifiers::ctrl()), Some(vec![b'1']));
    assert_eq!(encode_key(KeyCode::Char('1'), ctrl_alt()), Some(vec![0x1b, b'1']));
}

#[test]
fn alt_prefixes_escape() {
    assert_eq!(encode_key(KeyCode::Char('x'), KeyModifiers::alt()), Some(vec![0x1b, b'x']));
    assert_eq!(
        encode_key(KeyCode::Char('é'), KeyModifiers::alt()),
        Some(vec![0x1b, 0xc3, 0xa9])
    );
}

#[test]
fn plain_characters_are_utf8() {
    assert_eq!(encode_key(KeyCode::Char('q'), plain()), Some(vec![b'q']));
    assert_eq!(encode_key(KeyCode::Char('Q'), KeyModifiers::shift()), Some(vec![b'Q']));
    assert_eq!(encode_key(KeyCode::Char('é'), plain()), Some("é".as_bytes().to_vec()));
    assert_eq!(encode_key(KeyCode::Char('€'), plain()), Some("€".as_bytes().to_vec()));
    assert_eq!(encode_key(KeyCode::Char('😀'), plain()), Some("😀".as_bytes().to_vec()));
}

#[test]
fn encode_char_agrees_with_std_at_the_width_boundaries() {
    for c in ['\0', '\u{7f}', '\u{80}', '\u{7ff}', '\u{800}', '\u{d7ff}', '\u{e000}', '\u{ffff}', '\u{10000}', '\u{10ffff}'] {
        let mut buf = [0u8; 4];
        let expected = c.encode_utf8(&mut buf).as_bytes().to_vec();
        assert_eq!(encode_char(c), expected);
    }
}

#[test]
fn named_keys_have_fixed_sequences() {
    let m = plain();
    assert_eq!(encode_key(KeyCode::Enter, m), Some(vec![0x0d]));
    assert_eq!(encode_key(KeyCode::Backspace, m), Some(vec![0x7f]));
    assert_eq!(encode_key(KeyCode::Tab, m), Some(vec![0x09]));
    assert_eq!(encode_key(KeyCode::Esc, m), Some(vec![0x1b]));
    assert_eq!(encode_key(KeyCode::Up, m), Some(b"\x1b[A".to_vec()));
    assert_eq!(encode_key(KeyCode::Down, m), Some(b"\x1b[B".to_vec()));
    assert_eq!(encode_key(KeyCode::Right, m), Some(b"\x1b[C".to_vec()));
    assert_eq!(encode_key(KeyCode::Left, m), Some(b"\x1b[D".to_vec()));
    assert_eq!(encode_key(KeyCode::Home, m), Some(b"\x1b[H".to_vec()));
    assert_eq!(encode_key(KeyCode::End, m), Some(b"\x1b[F".to_vec()));
    assert_eq!(encode_key(KeyCode::PageUp, m), Some(b"\x1b[5~".to_vec()));
    assert_eq!(encode_key(KeyCode::PageDown, m), Some(b"\x1b[6~".to_vec()));
    assert_eq!(encode_key(KeyCode::Delete, m), Some(b"\x1b[3~".to_vec()));
    assert_eq!(encode_key(KeyCode::Insert, m), Some(b"\x1b[2~".to_vec()));
}

#[test]
fn named_keys_ignore_modifiers() {
    assert_eq!(encode_key(KeyCode::Enter, KeyModifiers::ctrl()), Some(vec![0x0d]));
    assert_eq!(encode_key(KeyCode::Up, KeyModifiers::alt()), Some(b"\x1b[A".to_vec()));
}

#[test]
fn function_keys_follow_xterm_numbering() {
    let m = plain();
    assert_eq!(encode_key(KeyCode::F(1), m), Some(b"\x1bOP".to_vec()));
    assert_eq!(encode_key(KeyCode::F(2), m), Some(b"\x1bOQ".to_vec()));
    assert_eq!(encode_key(KeyCode::F(3), m), Some(b"\x1bOR".to_vec()));
    assert_eq!(encode_key(KeyCode::F(4), m), Some(b"\x1bOS".to_vec()));
    assert_eq!(encode_key(KeyCode::F(5), m), Some(b"\x1b[15~".to_vec()));
    assert_eq!(encode_key(KeyCode::F(6), m), Some(b"\x1b[17~".to_vec()));
    assert_eq!(encode_key(KeyCode::F(7), m), Some(b"\x1b[18~".to_vec()));
    assert_eq!(encode_key(KeyCode::F(8), m), Some(b"\x1b[19~".to_vec()));
    assert_eq!(encode_key(KeyCode::F(9), m), Some(b"\x1b[20~".to_vec()));
    assert_eq!(encode_key(KeyCode::F(10), m), Some(b"\x1b[21~".to_vec()));
    assert_eq!(encode_key(KeyCode::F(11), m), Some(b"\x1b[23~".to_vec()));
    assert_eq!(encode_key(KeyCode::F(12), m), Some(b"\x1b[24~".to_vec()));
}

#[test]
fn unmapped_keys_send_nothing() {
    let m = plain();
    assert_eq!(encode_key(KeyCode::F(0), m), None);
    assert_eq!(encode_key(KeyCode::F(13), m), None);
    assert_eq!(encode_key(KeyCode::BackTab, m), None);
    assert_eq!(encode_key(KeyCode::Null, m), None);
    assert_eq!(encode_key(KeyCode::Other, m), None);
}

#[test]
fn session_send_key_is_the_encoder() {
    let term = Terminal::new(80, 24).unwrap();
    assert_eq!(term.send_key(KeyCode::Enter, plain()), Some(vec![0x0d]));
    assert_eq!(term.send_key(KeyCode::Other, plain()), None);
    assert_eq!(term.send_char('é'), vec![0xc3, 0xa9]);
}

#[test]
fn new_session_is_empty_and_live() {
    let term = Terminal::new(80, 24).unwrap();
    assert_eq!(term.cols, 80);
    assert_eq!(term.rows, 24);
    assert_eq!(term.scroll_offset, 0);
    assert!(!term.is_scrolled_back());
    assert_eq!(term.current_scrollback(), 0);
    assert_eq!(term.max_scrollback(), 1000);
    assert_eq!(SCROLLBACK_LINES, 1000);
    assert_eq!(term.screen().screen().size(), (24, 80));
    assert_eq!(term.screen().screen().contents(), "");
}

#[test]
fn zero_sized_session_cannot_be_opened() {
    assert!(matches!(Terminal::new(0, 24), Err(TerminalError::SpawnFailed)));
    assert!(matches!(Terminal::new(80, 0), Err(TerminalError::SpawnFailed)));
    assert!(matches!(Terminal::new(0, 0), Err(TerminalError::SpawnFailed)));
}

#[test]
fn output_of_printf_hi_reaches_the_first_row() {
    let mut term = Terminal::new(80, 24).unwrap();
    // What the reader hands over for a child that ran `printf hi` and
    // exited: one chunk, then nothing more.
    assert!(term.read_output(&vec![b"hi".to_vec()]).is_ok());
    assert!(term.read_output(&vec![]).is_ok());
    assert!(term.read_output(&vec![]).is_ok());
    let first_row: String = term.screen().screen().rows(0, 80).next().unwrap();
    assert!(first_row.contains("hi"));
    assert_eq!(term.screen().screen().cell(0, 0).unwrap().contents(), "h");
    assert_eq!(term.screen().screen().cell(0, 1).unwrap().contents(), "i");
    assert_eq!(term.screen().screen().cursor_position(), (0, 2));
}

#[test]
fn chunks_are_applied_in_order_even_when_a_sequence_is_split() {
    let mut whole = Terminal::new(20, 5).unwrap();
    whole.read_output(&vec![b"ab\x1b[1;1Hcd\r\nef".to_vec()]).unwrap();
    let mut split = Terminal::new(20, 5).unwrap();
    split
        .read_output(&vec![b"ab\x1b".to_vec(), b"[1;".to_vec(), b"1Hc".to_vec()])
        .unwrap();
    split.read_output(&vec![b"d\r\n".to_vec(), b"ef".to_vec()]).unwrap();
    assert_eq!(whole.screen().screen().contents(), "cd\nef");
    assert_eq!(split.screen().screen().contents(), "cd\nef");
}

#[test]
fn empty_read_changes_nothing() {
    let mut term = Terminal::new(10, 3).unwrap();
    term.read_output(&vec![b"x".to_vec()]).unwrap();
    term.read_output(&vec![]).unwrap();
    assert_eq!(term.screen().screen().contents(), "x");
    assert_eq!((term.cols, term.rows, term.scroll_offset), (10, 3, 0));
}

fn with_history(lines: usize) -> Terminal {
    let mut term = Terminal::new(10, 3).unwrap();
    let mut out = Vec::new();
    for i in 0..lines + 2 {
        out.extend_from_slice(format!("{}\r\n", i).as_bytes());
    }
    term.read_output(&vec![out]).unwrap();
    term
}

#[test]
fn scroll_up_is_clamped_to_history() {
    let mut term = with_history(5);
    term.scroll_up(2);
    assert_eq!(term.scroll_offset, 2);
    assert_eq!(term.current_scrollback(), 2);
    assert!(term.is_scrolled_back());
    term.scroll_up(100);
    assert_eq!(term.scroll_offset, 5);
    term.scroll_up(usize::MAX);
    assert_eq!(term.scroll_offset, 5);
}

#[test]
fn scroll_up_on_fresh_session_stays_live() {
    let mut term = Terminal::new(80, 24).unwrap();
    term.scroll_up(10);
    assert_eq!(term.scroll_offset, 0);
    assert!(!term.is_scrolled_back());
}

#[test]
fn scroll_down_saturates_at_zero() {
    let mut term = with_history(5);
    term.scroll_up(3);
    term.scroll_down(1);
    assert_eq!(term.scroll_offset, 2);
    term.scroll_down(10);
    assert_eq!(term.scroll_offset, 0);
    assert!(!term.is_scrolled_back());
}

#[test]
fn scroll_round_trip_within_history() {
    let mut term = with_history(8);
    term.scroll_up(1);
    let before = term.current_scrollback();
    term.scroll_up(4);
    term.scroll_down(4);
    assert_eq!(term.current_scrollback(), before);
    assert_eq!(term.scroll_offset, before);
}

#[test]
fn scroll_round_trip_past_history_ends_at_or_below_start() {
    let mut term = with_history(2);
    term.scroll_up(1);
    term.scroll_up(5);
    assert_eq!(term.scroll_offset, 2);
    term.scroll_down(5);
    assert_eq!(term.scroll_offset, 0);
}

#[test]
fn scroll_to_bottom_returns_to_live_output() {
    let mut term = with_history(5);
    term.scroll_up(4);
    term.scroll_to_bottom();
    assert_eq!(term.scroll_offset, 0);
    assert_eq!(term.current_scrollback(), 0);
}

#[test]
fn history_is_capped_at_capacity() {
    let mut term = with_history(1200);
    term.scroll_up(5000);
    assert_eq!(term.scroll_offset, 1000);
}

#[test]
fn resize_takes_the_new_size() {
    let mut term = Terminal::new(80, 24).unwrap();
    assert!(term.needs_resize(100, 30));
    assert_eq!(term.resize(100, 30, true), Ok(()));
    assert!(!term.needs_resize(100, 30));
    assert_eq!((term.cols, term.rows), (100, 30));
    assert_eq!(term.screen().screen().size(), (30, 100));
}

#[test]
fn zero_resize_is_a_no_op() {
    let mut term = Terminal::new(80, 24).unwrap();
    assert!(!term.needs_resize(0, 30));
    assert!(!term.needs_resize(100, 0));
    assert_eq!(term.resize(0, 30, true), Ok(()));
    assert_eq!((term.cols, term.rows), (80, 24));
    assert_eq!(term.resize(100, 0, true), Ok(()));
    assert_eq!((term.cols, term.rows), (80, 24));
    assert_eq!(term.resize(0, 0, false), Ok(()));
    assert_eq!((term.cols, term.rows), (80, 24));
    assert_eq!(term.screen().screen().size(), (24, 80));
}

#[test]
fn failed_resize_keeps_the_previous_size() {
    let mut term = Terminal::new(80, 24).unwrap();
    assert_eq!(term.resize(100, 30, false), Err(TerminalError::ResizeFailed));
    assert_eq!((term.cols, term.rows), (80, 24));
    assert_eq!(term.screen().screen().size(), (24, 80));
}

#[test]
fn create_ten_then_reject_the_eleventh() {
    let mut reg = TerminalRegistry::new();
    for i in 0..10 {
        assert_eq!(reg.create(), Ok(i));
        assert_eq!(reg.active, i);
        assert_eq!(reg.len(), i + 1);
    }
    assert!(reg.is_full());
    assert_eq!(reg.create(), Err(RegistryError::AtCapacity));
    assert_eq!(reg.len(), 10);
    assert_eq!(reg.active, 9);
}

#[test]
fn created_sessions_have_the_default_size() {
    let mut reg = TerminalRegistry::new();
    reg.create().unwrap();
    let term = reg.active_terminal().unwrap();
    assert_eq!((term.cols, term.rows), (DEFAULT_COLS, DEFAULT_ROWS));
    assert_eq!((term.cols, term.rows), (80, 24));
}

#[test]
fn small_registry_fills_sooner() {
    let mut reg = TerminalRegistry::with_capacity(2);
    assert_eq!(reg.create(), Ok(0));
    assert_eq!(reg.create(), Ok(1));
    assert_eq!(reg.create(), Err(RegistryError::AtCapacity));
    let mut none = TerminalRegistry::with_capacity(0);
    assert_eq!(none.create(), Err(RegistryError::AtCapacity));
    assert!(none.is_empty());
}

fn registry_of(n: usize, active: usize) -> TerminalRegistry {
    let mut reg = TerminalRegistry::new();
    for _ in 0..n {
        reg.create().unwrap();
    }
    reg.switch(active);
    reg
}

#[test]
fn next_and_prev_wrap_around() {
    let mut reg = registry_of(3, 1);
    assert_eq!(reg.active, 1);
    reg.next();
    assert_eq!(reg.active, 2);
    reg.next();
    assert_eq!(reg.active, 0);
    reg.prev();
    assert_eq!(reg.active, 2);
    reg.prev();
    assert_eq!(reg.active, 1);
}

#[test]
fn close_active_last_moves_to_new_last() {
    let mut reg = registry_of(3, 2);
    reg.close(2);
    assert_eq!(reg.len(), 2);
    assert_eq!(reg.active, 1);
}

#[test]
fn close_active_in_the_middle_keeps_the_index() {
    let mut reg = registry_of(3, 1);
    reg.close(reg.active);
    assert_eq!(reg.len(), 2);
    assert_eq!(reg.active, 1);
    assert!(reg.active < reg.len());
}

#[test]
fn close_before_active_keeps_the_index_valid() {
    let mut reg = registry_of(3, 2);
    reg.close(0);
    assert_eq!(reg.len(), 2);
    assert_eq!(reg.active, 1);
}

#[test]
fn close_the_only_session_empties_the_registry() {
    let mut reg = registry_of(1, 0);
    reg.close(0);
    assert!(reg.is_empty());
    assert!(reg.active_terminal().is_none());
}

#[test]
fn close_of_a_missing_session_does_nothing() {
    let mut reg = registry_of(2, 1);
    reg.close(2);
    reg.close(usize::MAX);
    assert_eq!(reg.len(), 2);
    assert_eq!(reg.active, 1);
    let mut empty = TerminalRegistry::new();
    empty.close(0);
    assert!(empty.is_empty());
}

#[test]
fn operations_on_an_empty_registry_do_nothing() {
    let mut reg = TerminalRegistry::new();
    reg.next();
    reg.prev();
    reg.switch(0);
    reg.switch(3);
    reg.broadcast_resize(100, 30, &vec![]);
    assert!(reg.is_empty());
    assert_eq!(reg.active, 0);
    assert!(reg.active_terminal().is_none());
}

#[test]
fn switch_ignores_an_index_out_of_range() {
    let mut reg = registry_of(3, 0);
    reg.switch(2);
    assert_eq!(reg.active, 2);
    reg.switch(3);
    assert_eq!(reg.active, 2);
}

#[test]
fn broadcast_resize_applies_to_each_session_on_its_own() {
    let mut reg = registry_of(3, 0);
    reg.broadcast_resize(100, 30, &vec![true, false, true]);
    assert_eq!((reg.terminals[0].cols, reg.terminals[0].rows), (100, 30));
    assert_eq!((reg.terminals[1].cols, reg.terminals[1].rows), (80, 24));
    assert_eq!((reg.terminals[2].cols, reg.terminals[2].rows), (100, 30));
    assert_eq!(reg.terminals[2].screen().screen().size(), (30, 100));
    // A short list of answers leaves the sessions it does not cover alone.
    reg.broadcast_resize(90, 20, &vec![true]);
    assert_eq!((reg.terminals[0].cols, reg.terminals[0].rows), (90, 20));
    assert_eq!((reg.terminals[2].cols, reg.terminals[2].rows), (100, 30));
}

#[test]
fn broadcast_resize_to_zero_is_a_no_op_everywhere() {
    let mut reg = registry_of(2, 0);
    reg.broadcast_resize(0, 30, &vec![true, true]);
    reg.broadcast_resize(100, 0, &vec![true, true]);
    for term in &reg.terminals {
        assert_eq!((term.cols, term.rows), (80, 24));
    }
}

#[test]
fn output_in_two_reads_is_output_in_one() {
    let parts = vec![b"one\r\n".to_vec(), b"\x1b[3".to_vec(), b"1mtwo".to_vec(), b"\r\nthree".to_vec()];
    let mut in_one = Terminal::new(20, 5).unwrap();
    in_one.read_output(&parts).unwrap();
    for cut in 0..=parts.len() {
        let mut in_two = Terminal::new(20, 5).unwrap();
        in_two.read_output(&parts[..cut].to_vec()).unwrap();
        in_two.read_output(&parts[cut..].to_vec()).unwrap();
        assert_eq!(
            in_two.screen().screen().contents_formatted(),
            in_one.screen().screen().contents_formatted()
        );
    }
    assert_eq!(in_one.screen().screen().contents(), "one\ntwo\nthree");
}

#[test]
fn scrolled_view_follows_its_rows_while_output_arrives() {
    let mut term = Terminal::new(10, 3).unwrap();
    term.read_output(&vec![b"1\r\n2\r\n3\r\n4\r\n5\r\n".to_vec()]).unwrap();
    term.scroll_up(1);
    assert_eq!(term.current_scrollback(), 1);
    term.read_output(&vec![b"6\r\n".to_vec()]).unwrap();
    // The screen keeps the view on the same rows; the offset recorded at
    // the last scroll is what it was.
    assert_eq!(term.current_scrollback(), 2);
    assert_eq!(term.scroll_offset, 1);
    assert!(term.is_scrolled_back());
    term.scroll_down(1);
    assert_eq!((term.current_scrollback(), term.scroll_offset), (1, 1));
}

#[test]
fn resize_to_the_present_size_leaves_the_screen_alone() {
    let mut term = Terminal::new(5, 3).unwrap();
    assert!(!term.needs_resize(5, 3));
    assert!(term.needs_resize(6, 3));
    assert!(term.needs_resize(5, 2));
    // A full line leaves the cursor waiting behind the last column.
    term.read_output(&vec![b"abcde".to_vec()]).unwrap();
    assert_eq!(term.screen().screen().cursor_position(), (0, 5));
    // The screen is left alone, whatever the pseudo-terminal answered; a
    // refusal is still reported.
    assert_eq!(term.resize(5, 3, true), Ok(()));
    assert_eq!(term.resize(5, 3, false), Err(TerminalError::ResizeFailed));
    assert_eq!((term.cols, term.rows), (5, 3));
    assert_eq!(term.screen().screen().cursor_position(), (0, 5));
    term.read_output(&vec![b"f".to_vec()]).unwrap();
    assert_eq!(term.screen().screen().contents(), "abcdef");
    assert!(term.screen().screen().row_wrapped(0));
}

#[test]
fn growing_keeps_what_the_screen_holds() {
    let mut term = with_history(10);
    term.scroll_up(2);
    let shown = term.screen().screen().contents();
    assert!(shown.contains('8'));
    assert_eq!(term.resize(12, 3, true), Ok(()));
    assert_eq!((term.cols, term.rows, term.scroll_offset), (12, 3, 2));
    assert_eq!(term.current_scrollback(), 2);
    assert_eq!(term.screen().screen().size(), (3, 12));
    assert_eq!(term.screen().screen().contents(), shown);
    assert_eq!(term.resize(12, 8, true), Ok(()));
    assert_eq!(term.current_scrollback(), 2);
    assert_eq!(term.screen().screen().size(), (8, 12));
}

#[test]
fn shrinking_starts_a_blank_screen() {
    let mut term = with_history(10);
    term.scroll_up(4);
    assert_eq!(term.resize(9, 3, true), Ok(()));
    assert_eq!((term.cols, term.rows, term.scroll_offset), (9, 3, 0));
    assert_eq!(term.current_scrollback(), 0);
    assert_eq!(term.screen().screen().size(), (3, 9));
    assert_eq!(term.screen().screen().contents(), "");
    term.scroll_up(5);
    assert_eq!(term.current_scrollback(), 0);
    // Wider but lower is smaller too.
    let mut term = with_history(10);
    assert_eq!(term.resize(20, 2, true), Ok(()));
    assert_eq!(term.screen().screen().size(), (2, 20));
    assert_eq!(term.screen().screen().contents(), "");
    term.read_output(&vec![b"again".to_vec()]).unwrap();
    assert_eq!(term.screen().screen().contents(), "again");
}

#[test]
fn a_refused_shrink_keeps_the_screen() {
    let mut term = with_history(10);
    let shown = term.screen().screen().contents();
    assert_eq!(term.resize(9, 3, false), Err(TerminalError::ResizeFailed));
    assert_eq!((term.cols, term.rows), (10, 3));
    assert_eq!(term.screen().screen().contents(), shown);
}

#[test]
fn a_wide_character_cut_by_a_resize_does_no_harm() {
    let mut term = Terminal::new(4, 24).unwrap();
    term.read_output(&vec!["ab\u{4e2d}".as_bytes().to_vec()]).unwrap();
    assert_eq!(term.resize(3, 24, true), Ok(()));
    assert!(term.read_output(&vec![b"x".to_vec()]).is_ok());
    assert!(term.read_output(&vec![b"\x1b[1;3H\x1b[X\x1b[Py".to_vec()]).is_ok());
    assert_eq!(term.screen().screen().size(), (24, 3));
}

#[test]
fn a_cursor_saved_below_a_later_bottom_does_no_harm() {
    let mut term = Terminal::new(10, 24).unwrap();
    term.read_output(&vec![b"\x1b[24;10H\x1b7".to_vec()]).unwrap();
    assert_eq!(term.resize(5, 10, true), Ok(()));
    assert!(term.read_output(&vec![b"\x1b8x\x1b[P".to_vec()]).is_ok());
    // The same while a full-screen program has the other grid.
    let mut term = Terminal::new(10, 24).unwrap();
    term.read_output(&vec![b"\x1b[24;1H\x1b[?1049h".to_vec()]).unwrap();
    assert_eq!(term.resize(10, 10, true), Ok(()));
    assert!(term.read_output(&vec![b"\x1b[?1049lx".to_vec()]).is_ok());
}

#[test]
fn a_session_of_one_column_takes_wide_characters() {
    let mut term = Terminal::new(1, 24).unwrap();
    assert_eq!((term.cols, term.rows), (1, 24));
    assert_eq!(term.screen().screen().size(), (24, 3));
    assert!(term.read_output(&vec!["\u{4e2d}\u{4e2d}".as_bytes().to_vec()]).is_ok());
    assert_eq!(term.screen().screen().cell(0, 0).unwrap().contents(), "\u{4e2d}");
    // Growing to three columns leaves the screen as it is.
    assert_eq!(term.resize(3, 24, true), Ok(()));
    assert_eq!((term.cols, term.rows), (3, 24));
    assert_eq!(term.screen().screen().size(), (24, 3));
    assert_eq!(term.screen().screen().cell(0, 0).unwrap().contents(), "\u{4e2d}");
}

#[test]
fn a_session_of_one_row_takes_lines_that_wrap() {
    let mut term = Terminal::new(3, 1).unwrap();
    assert_eq!(term.screen().screen().size(), (2, 3));
    assert!(term.read_output(&vec![b"abcdefgh\r\nij".to_vec()]).is_ok());
    assert_eq!((term.cols, term.rows), (3, 1));
}

#[test]
fn a_tab_at_the_widest_screen_stays_inside() {
    let mut term = Terminal::new(65535, 2).unwrap();
    assert_eq!(term.cols, 65535);
    assert_eq!(term.screen().screen().size(), (2, 65527));
    assert!(term.read_output(&vec![b"\x1b[1;65535H\tx\t".to_vec()]).is_ok());
}

#[test]
fn the_widest_character_fits_the_narrowest_sessions() {
    for cols in 1..=3u16 {
        let mut term = Terminal::new(cols, 2).unwrap();
        assert_eq!((term.cols, term.rows), (cols, 2));
        assert_eq!(term.screen().screen().size(), (2, 3));
        let twice = "\u{17d8}\u{17d8}".as_bytes().to_vec();
        assert!(term.read_output(&vec![twice.clone()]).is_ok());
        assert!(term.read_output(&vec![twice, b"\x1b[1;3H\x1b[X\x1b[P\x1b[@x".to_vec()]).is_ok());
        assert_eq!((term.cols, term.rows), (cols, 2));
    }
    let mut term = Terminal::new(4, 2).unwrap();
    assert_eq!(term.screen().screen().size(), (2, 4));
    assert!(term.read_output(&vec!["a\u{17d8}\u{17d8}".as_bytes().to_vec()]).is_ok());
}

#[test]
fn broadcast_passes_over_sessions_of_that_size() {
    let mut reg = registry_of(2, 0);
    reg.terminals[0].read_output(&vec![b"kept".to_vec()]).unwrap();
    reg.broadcast_resize(80, 24, &vec![false, true]);
    for term in &reg.terminals {
        assert_eq!((term.cols, term.rows), (80, 24));
    }
    assert_eq!(reg.terminals[0].screen().screen().contents(), "kept");
}
