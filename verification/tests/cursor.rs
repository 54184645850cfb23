use gterm::editor::{Cursor, Selection};

#[test]
fn new_cursor_is_at_the_origin() {
    assert_eq!(Cursor::new(), Cursor { line: 0, col: 0, wanted_col: 0 });
    assert_eq!(Cursor::default(), Cursor::new());
    assert_eq!(Cursor::at(3, 7), Cursor { line: 3, col: 7, wanted_col: 7 });
}

#[test]
fn move_to_sets_the_wanted_column() {
    let mut c = Cursor { line: 1, col: 2, wanted_col: 9 };
    c.move_to(4, 5);
    assert_eq!(c, Cursor { line: 4, col: 5, wanted_col: 5 });
}

#[test]
fn move_right_within_and_across_lines() {
    let mut c = Cursor::at(0, 2);
    c.move_right(5, 3);
    assert_eq!(c, Cursor::at(0, 3));
    let mut c = Cursor::at(0, 5);
    c.move_right(5, 3);
    assert_eq!(c, Cursor::at(1, 0));
    let mut c = Cursor::at(2, 5);
    c.move_right(5, 3);
    assert_eq!(c, Cursor::at(2, 5));
    let mut c = Cursor::at(usize::MAX, 0);
    c.move_right(0, usize::MAX);
    assert_eq!(c, Cursor::at(usize::MAX, 0));
    let mut c = Cursor::at(0, 0);
    c.move_right(0, 0);
    assert_eq!(c, Cursor::at(0, 0));
}

#[test]
fn move_left_within_and_across_lines() {
    let lens = [4usize, 7, 2];
    let mut c = Cursor::at(1, 3);
    c.move_left(|l| lens[l]);
    assert_eq!(c, Cursor::at(1, 2));
    let mut c = Cursor::at(2, 0);
    c.move_left(|l| lens[l]);
    assert_eq!(c, Cursor::at(1, 7));
    let mut c = Cursor::at(0, 0);
    c.move_left(|l| lens[l]);
    assert_eq!(c, Cursor::at(0, 0));
}

#[test]
fn move_up_and_down_keep_the_wanted_column() {
    let lens = [10usize, 2, 8];
    let mut c = Cursor::at(0, 6);
    c.move_down(3, |l| lens[l]);
    assert_eq!(c, Cursor { line: 1, col: 2, wanted_col: 6 });
    c.move_down(3, |l| lens[l]);
    assert_eq!(c, Cursor { line: 2, col: 6, wanted_col: 6 });
    c.move_down(3, |l| lens[l]);
    assert_eq!(c, Cursor { line: 2, col: 6, wanted_col: 6 });
    c.move_up(|l| lens[l]);
    assert_eq!(c, Cursor { line: 1, col: 2, wanted_col: 6 });
    c.move_up(|l| lens[l]);
    assert_eq!(c, Cursor { line: 0, col: 6, wanted_col: 6 });
    c.move_up(|l| lens[l]);
    assert_eq!(c, Cursor { line: 0, col: 6, wanted_col: 6 });
}

#[test]
fn line_and_document_ends() {
    let mut c = Cursor::at(3, 4);
    c.move_to_line_start();
    assert_eq!(c, Cursor::at(3, 0));
    c.move_to_line_end(9);
    assert_eq!(c, Cursor::at(3, 9));
    c.move_to_start();
    assert_eq!(c, Cursor::at(0, 0));
    c.move_to_end(5, 2);
    assert_eq!(c, Cursor::at(4, 2));
    c.move_to_end(0, 0);
    assert_eq!(c, Cursor::at(0, 0));
}

#[test]
fn selection_basics() {
    let mut s = Selection::new(Cursor::at(1, 2));
    assert!(!s.has_selection());
    assert_eq!(Selection::default(), Selection::new(Cursor::new()));
    s.extend_to(Cursor::at(3, 1));
    assert!(s.has_selection());
    assert_eq!(s.ordered(), (Cursor::at(1, 2), Cursor::at(3, 1)));
    s.collapse();
    assert!(!s.has_selection());
    assert_eq!(s.anchor, Cursor::at(3, 1));
}

#[test]
fn wanted_column_does_not_make_a_selection() {
    let s = Selection {
        anchor: Cursor { line: 1, col: 2, wanted_col: 2 },
        head: Cursor { line: 1, col: 2, wanted_col: 9 },
    };
    assert!(!s.has_selection());
    assert!(!s.contains(1, 2));
}

#[test]
fn ordered_puts_the_earlier_end_first() {
    let s = Selection { anchor: Cursor::at(3, 1), head: Cursor::at(1, 2) };
    assert_eq!(s.ordered(), (Cursor::at(1, 2), Cursor::at(3, 1)));
    let s = Selection { anchor: Cursor::at(1, 5), head: Cursor::at(1, 2) };
    assert_eq!(s.ordered(), (Cursor::at(1, 2), Cursor::at(1, 5)));
}

#[test]
fn contains_on_one_line() {
    let s = Selection { anchor: Cursor::at(1, 2), head: Cursor::at(1, 5) };
    assert!(!s.contains(1, 1));
    assert!(s.contains(1, 2));
    assert!(s.contains(1, 4));
    assert!(!s.contains(1, 5));
    assert!(!s.contains(0, 3));
    assert!(!s.contains(2, 3));
}

#[test]
fn contains_over_several_lines() {
    let s = Selection { anchor: Cursor::at(3, 1), head: Cursor::at(1, 2) };
    assert!(!s.contains(1, 1));
    assert!(s.contains(1, 2));
    assert!(s.contains(1, 400));
    assert!(s.contains(2, 0));
    assert!(s.contains(2, usize::MAX));
    assert!(s.contains(3, 0));
    assert!(!s.contains(3, 1));
    assert!(!s.contains(4, 0));
    assert!(!s.contains(0, 9));
}
