use athena::cursor::{Cursor, Selection, SelectionScope};
use athena::graphemes::GraphemeOperations;
use ropey::Rope;

#[test]
fn fresh_cursor_and_selection() {
    let c = Cursor::new();
    assert_eq!(c.index, 0);
    let s = Selection::new();
    assert_eq!((s.start, s.end), (0, 0));
    assert!(!s.is_active());
}

#[test]
fn selection_set_and_clear() {
    let mut s = Selection::new();
    s.set(2, 5);
    assert_eq!((s.start, s.end), (2, 5));
    assert!(s.is_active());
    s.set(4, 4);
    assert!(!s.is_active());
    s.set(6, 1);
    assert!(s.is_active());
    s.clear();
    assert_eq!((s.start, s.end), (0, 0));
    assert!(!s.is_active());
}

#[test]
fn cursor_line_moves() {
    let rope = Rope::from_str("ab\ncd\nef");
    let mut c = Cursor { index: 4 };
    c.move_next_line(&rope);
    assert_eq!(c.index, 6);
    c.move_next_line(&rope);
    assert_eq!(c.index, 8);
    c.move_prev_line(&rope);
    assert_eq!(c.index, 3);
    c.move_prev_line(&rope);
    assert_eq!(c.index, 0);
    c.move_prev_line(&rope);
    assert_eq!(c.index, 0);
}

#[test]
fn cursor_line_ends_and_starts() {
    let rope = Rope::from_str("ab\ncd\nef");
    let mut c = Cursor { index: 4 };
    c.move_to_end_of_line(&rope);
    assert_eq!(c.index, 5);
    c.move_to_start_of_line(&rope);
    assert_eq!(c.index, 3);
    let mut last = Cursor { index: 6 };
    last.move_to_end_of_line(&rope);
    assert_eq!(last.index, 8);
}

#[test]
fn cursor_grapheme_and_word_moves() {
    let rope = Rope::from_str("e\u{301} foo");
    let mut c = Cursor::new();
    c.move_next_grapheme(&rope);
    assert_eq!(c.index, 2);
    c.move_next_word(&rope);
    assert_eq!(c.index, 3);
    c.move_next_word(&rope);
    assert_eq!(c.index, 6);
    c.move_prev_word(&rope);
    assert_eq!(c.index, 3);
    c.move_prev_grapheme(&rope);
    assert_eq!(c.index, 2);
    c.move_prev_grapheme(&rope);
    assert_eq!(c.index, 0);
}

#[test]
fn select_scope_word() {
    let rope = Rope::from_str("foo bar");
    let mut s = Selection::new();
    s.select_scope(&Cursor { index: 0 }, &SelectionScope::Word, &rope);
    assert_eq!((s.start, s.end), (0, 3));
}

#[test]
fn select_scope_grapheme_and_line() {
    let rope = Rope::from_str("e\u{301}x\nyz");
    let mut s = Selection::new();
    s.select_scope(&Cursor { index: 0 }, &SelectionScope::Grapheme, &rope);
    assert_eq!((s.start, s.end), (0, 2));
    s.select_scope(&Cursor { index: 1 }, &SelectionScope::Grapheme, &rope);
    assert_eq!((s.start, s.end), (0, 2));
    s.select_scope(&Cursor { index: 2 }, &SelectionScope::Line, &rope);
    assert_eq!((s.start, s.end), (2, 4));
    s.select_scope(&Cursor { index: 5 }, &SelectionScope::Line, &rope);
    assert_eq!((s.start, s.end), (5, 6));
    s.select_scope(&Cursor { index: 6 }, &SelectionScope::Word, &rope);
    assert_eq!((s.start, s.end), (6, 6));
}

#[test]
fn select_scope_ends_on_boundaries() {
    let rope = Rope::from_str("a\u{301}b c\u{308}\nd");
    for i in 0..=rope.len_chars() {
        for scope in [SelectionScope::Grapheme, SelectionScope::Word, SelectionScope::Line] {
            let mut s = Selection::new();
            s.select_scope(&Cursor { index: i }, &scope, &rope);
            assert!(rope.is_grapheme_boundary(s.start));
            assert!(rope.is_grapheme_boundary(s.end));
            assert!(s.start <= s.end);
        }
    }
}

#[test]
fn selection_word_extensions() {
    let rope = Rope::from_str("foo bar");
    let mut s = Selection::new();
    s.select_to_next_word(&Cursor { index: 4 }, &rope);
    assert_eq!((s.start, s.end), (4, 7));
    s.select_to_prev_word(&Cursor { index: 7 }, &rope);
    assert_eq!((s.start, s.end), (4, 7));
    s.select_to_end_of_line(&Cursor { index: 1 }, &Rope::from_str("ab\ncd"));
    assert_eq!((s.start, s.end), (1, 3));
}

#[test]
fn ensure_boundaries_widens_split_cluster() {
    let rope = Rope::from_str("e\u{301}x");
    let mut s = Selection::new();
    s.set(1, 1);
    s.ensure_grapheme_boundaries(&rope);
    assert_eq!((s.start, s.end), (0, 2));
    s.set(2, 3);
    s.ensure_grapheme_boundaries(&rope);
    assert_eq!((s.start, s.end), (2, 3));
}
