use athena::graphemes::{GraphemeIter, GraphemeOperations};
use ropey::Rope;

#[test]
fn next_boundary_steps_one_char_without_combining_marks() {
    let rope = Rope::from_str("h\u{e9}llo\nworld");
    assert_eq!(rope.len_chars(), 11);
    let mut idx = 0;
    let mut seen = Vec::new();
    for _ in 0..11 {
        idx = rope.next_grapheme_boundary(idx);
        seen.push(idx);
    }
    assert_eq!(seen, vec![1, 2, 3, 4, 5, 6, 7, 8, 9, 10, 11]);
    assert_eq!(rope.next_grapheme_boundary(11), 11);
}

#[test]
fn combining_mark_joins_its_base() {
    let rope = Rope::from_str("e\u{301}x");
    assert!(rope.is_grapheme_boundary(0));
    assert!(!rope.is_grapheme_boundary(1));
    assert!(rope.is_grapheme_boundary(2));
    assert!(rope.is_grapheme_boundary(3));
    assert!(!rope.is_grapheme_boundary(4));
    assert_eq!(rope.next_grapheme_boundary(0), 2);
    assert_eq!(rope.next_grapheme_boundary(1), 2);
    assert_eq!(rope.prev_grapheme_boundary(2), 0);
    assert_eq!(rope.prev_grapheme_boundary(1), 0);
    assert_eq!(rope.prev_grapheme_boundary(3), 2);
    assert_eq!(rope.prev_grapheme_boundary(0), 0);
    assert_eq!(rope.prev_grapheme_boundary(9), 3);
}

#[test]
fn ends_are_boundaries() {
    let empty = Rope::from_str("");
    assert!(empty.is_grapheme_boundary(0));
    assert_eq!(empty.next_grapheme_boundary(0), 0);
    assert_eq!(empty.prev_grapheme_boundary(0), 0);
    let rope = Rope::from_str("a\u{301}");
    assert!(rope.is_grapheme_boundary(0));
    assert!(rope.is_grapheme_boundary(2));
}

#[test]
fn next_then_prev_returns_to_boundary() {
    let rope = Rope::from_str("ae\u{301}b\u{1F1EB}\u{1F1F7}c");
    let len = rope.len_chars();
    for i in 0..len {
        let back = rope.prev_grapheme_boundary(rope.next_grapheme_boundary(i));
        assert!(back <= i);
        if rope.is_grapheme_boundary(i) {
            assert_eq!(back, i);
        }
    }
    assert!(rope.prev_grapheme_boundary(rope.next_grapheme_boundary(len)) <= len);
}

#[test]
fn forward_then_back_at_inner_boundaries() {
    let rope = Rope::from_str("x\u{301}y\nz\u{308}w");
    for i in 1..rope.len_chars() {
        if rope.is_grapheme_boundary(i) {
            assert_eq!(rope.prev_grapheme_boundary(rope.next_grapheme_boundary(i)), i);
        }
    }
}

#[test]
fn boundary_walk_covers_text_once() {
    let text = "a\u{301}bc\u{1F1EB}\u{1F1F7}\r\nd";
    let rope = Rope::from_str(text);
    let len = rope.len_chars();
    let mut stops = vec![0];
    let mut idx = 0;
    while idx < len {
        let next = rope.next_grapheme_boundary(idx);
        assert!(next > idx);
        stops.push(next);
        idx = next;
    }
    assert_eq!(*stops.last().unwrap(), len);
    assert!(stops.len() <= len + 1);
    for p in 0..len {
        let spans = stops.windows(2).filter(|w| w[0] <= p && p < w[1]).count();
        assert_eq!(spans, 1);
    }
    assert_eq!(stops, vec![0, 2, 3, 4, 6, 8, 9]);
}

#[test]
fn grapheme_iter_yields_clusters() {
    let rope = Rope::from_str("e\u{301}a\u{1F1EB}\u{1F1F7}");
    let mut it = GraphemeIter::new(rope.clone());
    let mut parts = Vec::new();
    while let Some(g) = it.next() {
        parts.push(g);
    }
    assert_eq!(parts, vec!["e\u{301}".to_string(), "a".to_string(), "\u{1F1EB}\u{1F1F7}".to_string()]);
    assert_eq!(it.next(), None);
    assert_eq!(parts.concat(), rope.to_string());
}

#[test]
fn grapheme_iter_on_empty_text() {
    let mut it = GraphemeIter::new(Rope::new());
    assert_eq!(it.next(), None);
}

#[test]
fn grapheme_width_of_first_cluster() {
    assert_eq!(Rope::from_str("").grapheme_width(), 0);
    assert_eq!(Rope::from_str("abc").grapheme_width(), 1);
    assert_eq!(Rope::from_str("\u{4f60}\u{597d}").grapheme_width(), 2);
    assert_eq!(Rope::from_str("\u{301}").grapheme_width(), 1);
}

#[test]
fn word_boundaries() {
    let rope = Rope::from_str("foo bar");
    assert_eq!(rope.next_word_boundary(0), 3);
    assert_eq!(rope.next_word_boundary(3), 4);
    assert_eq!(rope.next_word_boundary(4), 7);
    assert_eq!(rope.next_word_boundary(7), 7);
    assert_eq!(rope.prev_word_boundary(7), 4);
    assert_eq!(rope.prev_word_boundary(4), 3);
    assert_eq!(rope.prev_word_boundary(3), 0);
    assert_eq!(rope.prev_word_boundary(0), 0);
    assert_eq!(rope.prev_word_boundary(50), 4);
}

#[test]
fn long_word_falls_back_to_extremities() {
    let text = "x".repeat(300);
    let rope = Rope::from_str(&text);
    assert_eq!(rope.next_word_boundary(10), 300);
    assert_eq!(rope.prev_word_boundary(290), 0);
}

#[test]
fn boundary_found_far_into_long_text() {
    let mut text = "a".repeat(200);
    text.push_str("e\u{301}");
    text.push_str(&"b".repeat(200));
    let rope = Rope::from_str(&text);
    assert!(rope.is_grapheme_boundary(200));
    assert!(!rope.is_grapheme_boundary(201));
    assert!(rope.is_grapheme_boundary(202));
    assert_eq!(rope.next_grapheme_boundary(200), 202);
    assert_eq!(rope.prev_grapheme_boundary(202), 200);
}
