use gterm::editor::Document;
use gterm::search::{SearchMatch, SearchState};

fn m(line: usize, start_col: usize, end_col: usize) -> SearchMatch {
    SearchMatch { line, start_col, end_col }
}

fn state_with(matches: Vec<SearchMatch>, current: Option<usize>) -> SearchState {
    let mut s = SearchState::new();
    s.matches = matches;
    s.current_match = current;
    s
}

fn three() -> Vec<SearchMatch> {
    vec![m(0, 2, 4), m(2, 0, 2), m(2, 5, 7)]
}

fn query(s: &mut SearchState, text: &str) {
    for c in text.chars() {
        s.input_char(c);
    }
}

#[test]
fn new_state_is_idle() {
    let s = SearchState::new();
    assert_eq!(s.query, "");
    assert_eq!(s.replace_text, "");
    assert!(!s.case_sensitive && !s.use_regex && !s.active && !s.replace_mode);
    assert!(s.matches.is_empty());
    assert_eq!(s.current_match, None);
    assert_eq!(s.current(), None);
    assert!(!SearchState::default().active);
}

#[test]
fn open_and_close() {
    let mut s = state_with(three(), Some(1));
    s.open_replace();
    assert!(s.active && s.replace_mode);
    s.open();
    assert!(s.active && !s.replace_mode);
    assert_eq!(s.matches.len(), 3);
    s.input_char('x');
    s.close();
    assert!(!s.active);
    assert!(s.matches.is_empty());
    assert_eq!(s.current_match, None);
    assert_eq!(s.query, "x");
}

#[test]
fn next_match_wraps() {
    let mut s = state_with(three(), None);
    assert_eq!(s.next_match(), Some(m(0, 2, 4)));
    assert_eq!(s.current_match, Some(0));
    assert_eq!(s.next_match(), Some(m(2, 0, 2)));
    assert_eq!(s.next_match(), Some(m(2, 5, 7)));
    assert_eq!(s.next_match(), Some(m(0, 2, 4)));
    assert_eq!(s.current_match, Some(0));
}

#[test]
fn prev_match_wraps() {
    let mut s = state_with(three(), None);
    assert_eq!(s.prev_match(), Some(m(2, 5, 7)));
    assert_eq!(s.current_match, Some(2));
    assert_eq!(s.prev_match(), Some(m(2, 0, 2)));
    assert_eq!(s.prev_match(), Some(m(0, 2, 4)));
    assert_eq!(s.prev_match(), Some(m(2, 5, 7)));
}

#[test]
fn navigation_without_matches() {
    let mut s = SearchState::new();
    assert_eq!(s.next_match(), None);
    assert_eq!(s.prev_match(), None);
    assert_eq!(s.find_next_from(0, 0), None);
    assert_eq!(s.find_prev_from(9, 9), None);
    assert_eq!(s.current_match, None);
    assert!(!s.is_match(0, 0));
    assert!(!s.is_current_match(0, 0));
}

#[test]
fn current_of_a_stale_index_is_none() {
    let s = state_with(three(), Some(3));
    assert_eq!(s.current(), None);
    let s = state_with(three(), Some(2));
    assert_eq!(s.current(), Some(m(2, 5, 7)));
}

#[test]
fn find_next_from_takes_the_first_match_behind_the_position() {
    let mut s = state_with(three(), None);
    assert_eq!(s.find_next_from(0, 0), Some(m(0, 2, 4)));
    assert_eq!(s.current_match, Some(0));
    // A match that starts at the position itself does not count.
    assert_eq!(s.find_next_from(0, 2), Some(m(2, 0, 2)));
    assert_eq!(s.current_match, Some(1));
    assert_eq!(s.find_next_from(2, 0), Some(m(2, 5, 7)));
    assert_eq!(s.find_next_from(1, 99), Some(m(2, 0, 2)));
    // Behind the last match the search wraps to the first.
    assert_eq!(s.find_next_from(2, 5), Some(m(0, 2, 4)));
    assert_eq!(s.current_match, Some(0));
    assert_eq!(s.find_next_from(7, 0), Some(m(0, 2, 4)));
}

#[test]
fn find_prev_from_takes_the_last_match_before_the_position() {
    let mut s = state_with(three(), None);
    assert_eq!(s.find_prev_from(2, 5), Some(m(2, 0, 2)));
    assert_eq!(s.current_match, Some(1));
    assert_eq!(s.find_prev_from(2, 6), Some(m(2, 5, 7)));
    assert_eq!(s.find_prev_from(1, 0), Some(m(0, 2, 4)));
    // Before the first match the search wraps to the last.
    assert_eq!(s.find_prev_from(0, 2), Some(m(2, 5, 7)));
    assert_eq!(s.current_match, Some(2));
    assert_eq!(s.find_prev_from(0, 0), Some(m(2, 5, 7)));
}

#[test]
fn is_match_and_is_current_match() {
    let s = state_with(three(), Some(1));
    assert!(s.is_match(0, 2));
    assert!(s.is_match(0, 3));
    assert!(!s.is_match(0, 4));
    assert!(!s.is_match(1, 2));
    assert!(s.is_match(2, 6));
    assert!(s.is_current_match(2, 0));
    assert!(s.is_current_match(2, 1));
    assert!(!s.is_current_match(2, 2));
    assert!(!s.is_current_match(0, 2));
    assert!(!s.is_current_match(2, 5));
}

#[test]
fn match_info_texts() {
    let mut s = SearchState::new();
    assert_eq!(s.match_info(), "");
    s.input_char('a');
    assert_eq!(s.match_info(), "No matches");
    s.matches = three();
    assert_eq!(s.match_info(), "0/3");
    s.current_match = Some(0);
    assert_eq!(s.match_info(), "1/3");
    s.current_match = Some(2);
    assert_eq!(s.match_info(), "3/3");
    s.matches = (0..120).map(|i| m(i, 0, 1)).collect();
    s.current_match = Some(99);
    assert_eq!(s.match_info(), "100/120");
}

#[test]
fn query_and_replacement_editing() {
    let mut s = SearchState::new();
    s.backspace();
    assert_eq!(s.query, "");
    s.input_char('a');
    s.input_char('é');
    s.input_char('b');
    assert_eq!(s.query, "aéb");
    s.backspace();
    assert_eq!(s.query, "aé");
    s.backspace();
    assert_eq!(s.query, "a");
    s.replace_backspace();
    s.replace_input_char('x');
    s.replace_input_char('y');
    s.replace_backspace();
    assert_eq!(s.replace_text, "x");
    assert_eq!(s.query, "a");
}

#[test]
fn search_finds_every_occurrence_line_by_line() {
    let doc = Document::from_str("abc abc\nxx\nABC");
    let mut s = SearchState::new();
    query(&mut s, "abc");
    s.search(&doc);
    assert_eq!(s.matches, vec![m(0, 0, 3), m(0, 4, 7), m(2, 0, 3)]);
    assert_eq!(s.current_match, Some(0));
    s.case_sensitive = true;
    s.search(&doc);
    assert_eq!(s.matches, vec![m(0, 0, 3), m(0, 4, 7)]);
}

#[test]
fn search_ignores_the_case_of_the_query_too() {
    let doc = Document::from_str("Hello hELLo");
    let mut s = SearchState::new();
    query(&mut s, "HELLO");
    s.search(&doc);
    assert_eq!(s.matches, vec![m(0, 0, 5), m(0, 6, 11)]);
}

#[test]
fn search_finds_overlapping_occurrences() {
    let doc = Document::from_str("aaaa");
    let mut s = SearchState::new();
    query(&mut s, "aa");
    s.search(&doc);
    assert_eq!(s.matches, vec![m(0, 0, 2), m(0, 1, 3), m(0, 2, 4)]);
}

#[test]
fn search_counts_columns_in_characters() {
    let doc = Document::from_str("é x");
    let mut s = SearchState::new();
    query(&mut s, "x");
    s.search(&doc);
    assert_eq!(s.matches, vec![m(0, 2, 3)]);
}

#[test]
fn search_with_an_empty_query_or_without_hits_clears_the_matches() {
    let doc = Document::from_str("abc");
    let mut s = state_with(three(), Some(1));
    s.search(&doc);
    assert!(s.matches.is_empty());
    assert_eq!(s.current_match, None);
    query(&mut s, "zz");
    s.matches = three();
    s.current_match = Some(2);
    s.search(&doc);
    assert!(s.matches.is_empty());
    assert_eq!(s.current_match, None);
}

#[test]
fn search_does_not_match_across_lines() {
    let doc = Document::from_str("ab\ncd");
    let mut s = SearchState::new();
    query(&mut s, "bc");
    s.search(&doc);
    assert!(s.matches.is_empty());
    s.query.clear();
    query(&mut s, "b\n");
    s.search(&doc);
    assert_eq!(s.matches, vec![m(0, 1, 3)]);
}
