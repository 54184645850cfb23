use gterm::editor::Buffer;

#[test]
fn test_empty_buffer() {
    let buf = Buffer::new();
    assert_eq!(buf.len_chars(), 0);
    assert_eq!(buf.len_lines(), 1); // Rope considers empty as 1 line
    assert!(buf.is_empty());
}

#[test]
fn test_from_str() {
    let buf = Buffer::from_str("Hello\nWorld");
    assert_eq!(buf.len_lines(), 2);
    assert_eq!(buf.line(0).unwrap().to_string(), "Hello\n");
    assert_eq!(buf.line(1).unwrap().to_string(), "World");
}

#[test]
fn test_insert_char() {
    let mut buf = Buffer::from_str("Hello");
    buf.insert_char(5, '!');
    assert_eq!(buf.to_string(), "Hello!");
}

#[test]
fn test_delete_char() {
    let mut buf = Buffer::from_str("Hello!");
    buf.delete_char(5);
    assert_eq!(buf.to_string(), "Hello");
}

#[test]
fn test_line_col_conversion() {
    let buf = Buffer::from_str("Hello\nWorld");
    assert_eq!(buf.line_col_to_char(0, 0), 0);
    assert_eq!(buf.line_col_to_char(0, 5), 5);
    assert_eq!(buf.line_col_to_char(1, 0), 6);
    assert_eq!(buf.line_col_to_char(1, 5), 11);

    assert_eq!(buf.char_to_line_col(0), (0, 0));
    assert_eq!(buf.char_to_line_col(5), (0, 5));
    assert_eq!(buf.char_to_line_col(6), (1, 0));
    assert_eq!(buf.char_to_line_col(11), (1, 5));
}

#[test]
fn line_of_a_missing_index_is_none() {
    let buf = Buffer::from_str("a\nb");
    assert_eq!(buf.line(2), None);
    assert_eq!(buf.line(usize::MAX), None);
}

#[test]
fn trailing_line_break_gives_an_empty_last_line() {
    let buf = Buffer::from_str("Hello\nworld\n");
    assert_eq!(buf.len_lines(), 3);
    assert_eq!(buf.line(2).unwrap(), "");
    assert_eq!(buf.line_len(0), 5);
    assert_eq!(buf.line_len(1), 5);
    assert_eq!(buf.line_len(2), 0);
    assert_eq!(buf.line_len(3), 0);
}

#[test]
fn last_line_is_counted_in_full() {
    let buf = Buffer::from_str("ab\ncde");
    assert_eq!(buf.line_len(0), 2);
    assert_eq!(buf.line_len(1), 3);
}

#[test]
fn crlf_is_one_line_break() {
    let buf = Buffer::from_str("ab\r\ncd\r\n");
    assert_eq!(buf.len_lines(), 3);
    assert_eq!(buf.line(0).unwrap(), "ab\r\n");
    // Only the last character of the break is left out of the length.
    assert_eq!(buf.line_len(0), 3);
    assert_eq!(buf.line_col_to_char(1, 0), 4);
    // The line feed of a pair lies in the line of its carriage return.
    assert_eq!(buf.char_to_line_col(3), (0, 3));
    assert_eq!(buf.char_to_line_col(4), (1, 0));
}

#[test]
fn lone_carriage_return_and_unicode_breaks_end_lines() {
    let buf = Buffer::from_str("a\rb\u{2028}c\u{85}d\u{b}e\u{c}f\u{2029}g");
    assert_eq!(buf.len_lines(), 7);
    assert_eq!(buf.line_col_to_char(3, 0), 6);
    assert_eq!(buf.char_to_line_col(12), (6, 0));
}

#[test]
fn positions_out_of_range_are_held_within_the_text() {
    let buf = Buffer::from_str("Hello\nWorld");
    assert_eq!(buf.line_col_to_char(0, 99), 5);
    assert_eq!(buf.line_col_to_char(1, 99), 11);
    assert_eq!(buf.line_col_to_char(2, 0), 11);
    assert_eq!(buf.line_col_to_char(usize::MAX, usize::MAX), 11);
    assert_eq!(buf.char_to_line_col(99), (1, 5));
    assert_eq!(buf.char_to_line_col(usize::MAX), (1, 5));
}

#[test]
fn insert_past_the_end_appends() {
    let mut buf = Buffer::from_str("ab");
    buf.insert_char(99, 'c');
    assert_eq!(buf.to_string(), "abc");
    buf.insert_str(99, "de");
    assert_eq!(buf.to_string(), "abcde");
    buf.insert_str(1, "--");
    assert_eq!(buf.to_string(), "a--bcde");
    buf.insert_char(0, '>');
    assert_eq!(buf.to_string(), ">a--bcde");
}

#[test]
fn delete_out_of_range_does_nothing() {
    let mut buf = Buffer::from_str("abc");
    buf.delete_char(3);
    buf.delete_char(usize::MAX);
    assert_eq!(buf.to_string(), "abc");
    buf.delete_range(2, 1);
    buf.delete_range(5, 9);
    buf.delete_range(1, 1);
    assert_eq!(buf.to_string(), "abc");
}

#[test]
fn delete_range_is_held_within_the_text() {
    let mut buf = Buffer::from_str("abcdef");
    buf.delete_range(1, 3);
    assert_eq!(buf.to_string(), "adef");
    buf.delete_range(2, 99);
    assert_eq!(buf.to_string(), "ad");
}

#[test]
fn slices_and_characters() {
    let buf = Buffer::from_str("héllo");
    assert_eq!(buf.len_chars(), 5);
    assert_eq!(buf.slice_to_string(1, 3), "él");
    assert_eq!(buf.slice_to_string(3, 99), "lo");
    assert_eq!(buf.slice_to_string(3, 1), "");
    assert_eq!(buf.slice_to_string(9, 12), "");
    assert_eq!(buf.char_at(1), Some('é'));
    assert_eq!(buf.char_at(5), None);
    assert_eq!(buf.rope().len_chars(), 5);
}

#[test]
fn clone_holds_the_same_text() {
    let mut buf = Buffer::from_str("abc");
    let copy = buf.clone();
    buf.insert_char(0, 'x');
    assert_eq!(copy.to_string(), "abc");
    assert_eq!(buf.to_string(), "xabc");
    assert!(Buffer::default().is_empty());
}
