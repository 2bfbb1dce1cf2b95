use athena::commands::EditorCommand;
use athena::config::Mode;
use athena::state::{
    coords_at_pos, move_vertically, pos_at_coords, Direction, EditorEvent, EditorState,
    Granularity,
};
use ropey::Rope;

fn insert_mode(text: &str, cursor: usize) -> EditorState {
    let mut st = EditorState::from_text(text);
    st.cursor.index = cursor;
    let ev = st.handle_command(EditorCommand::UpdateMode(Mode::Insert));
    assert_eq!(ev, vec![EditorEvent::ModeChanged(Mode::Insert)]);
    st
}

#[test]
fn new_state_holds_welcome_line() {
    let st = EditorState::new();
    assert_eq!(st.buffer.to_string(), "Welcome to Athena, a modern terminal text-editor");
    assert_eq!(st.cursor.index, 0);
    assert_eq!(st.mode, Mode::Normal);
    assert!(!st.selection.is_active());
}

#[test]
fn insert_char_into_empty_buffer() {
    let mut st = insert_mode("", 0);
    let ev = st.handle_command(EditorCommand::InsertChar('a'));
    assert_eq!(st.buffer.to_string(), "a");
    assert_eq!(st.cursor.index, 1);
    assert_eq!(ev, vec![EditorEvent::BufferChanged]);
}

#[test]
fn append_below_opens_line() {
    let mut st = EditorState::from_text("foo");
    let ev = st.handle_command(EditorCommand::AppendBelow);
    assert_eq!(st.buffer.to_string(), "foo\n");
    assert_eq!(st.cursor.index, 4);
    assert_eq!(st.mode, Mode::Insert);
    assert_eq!(ev, vec![EditorEvent::CursorMoved(1, 0), EditorEvent::ModeChanged(Mode::Insert)]);
}

#[test]
fn delete_char_at_start_does_nothing() {
    let mut st = insert_mode("abc", 0);
    let ev = st.handle_command(EditorCommand::DeleteChar);
    assert_eq!(st.buffer.to_string(), "abc");
    assert_eq!(st.cursor.index, 0);
    assert!(ev.is_empty());
}

#[test]
fn move_down_on_last_line_keeps_line_and_column() {
    let mut st = EditorState::from_text("l0\nl1\nl2\nl3\nl4");
    st.cursor.index = 13;
    let ev = st.handle_command(EditorCommand::MoveCursor(Direction::Forward, Granularity::Line));
    assert_eq!(st.cursor.index, 13);
    assert_eq!(ev, vec![EditorEvent::CursorMoved(4, 1)]);
}

#[test]
fn vertical_move_clamps_column_to_shorter_line() {
    let mut st = EditorState::from_text("hello\nhi");
    st.cursor.index = 4;
    let ev = st.handle_command(EditorCommand::MoveCursor(Direction::Forward, Granularity::Line));
    assert_eq!(st.cursor.index, 8);
    assert_eq!(ev, vec![EditorEvent::CursorMoved(1, 2)]);
    let mut up = EditorState::from_text("hi\nhello");
    up.cursor.index = 7;
    up.handle_command(EditorCommand::MoveCursor(Direction::Backward, Granularity::Line));
    assert_eq!(up.cursor.index, 2);
}

#[test]
fn vertical_move_keeps_column_that_fits() {
    let mut st = EditorState::from_text("hello\nworld\n");
    st.cursor.index = 2;
    st.move_cursor(Direction::Forward, Granularity::Line);
    assert_eq!(st.cursor.index, 8);
    st.move_cursor(Direction::Forward, Granularity::Line);
    assert_eq!(st.cursor.index, 12);
    st.move_cursor(Direction::Backward, Granularity::Line);
    assert_eq!(st.cursor.index, 6);
    st.move_cursor(Direction::Backward, Granularity::Line);
    assert_eq!(st.cursor.index, 0);
    st.move_cursor(Direction::Backward, Granularity::Line);
    assert_eq!(st.cursor.index, 0);
}

#[test]
fn insert_then_normal_steps_back_one_grapheme() {
    let mut st = EditorState::from_text("ae\u{301}c");
    st.cursor.index = 3;
    st.handle_command(EditorCommand::UpdateMode(Mode::Insert));
    let ev = st.handle_command(EditorCommand::UpdateMode(Mode::Normal));
    assert_eq!(st.cursor.index, 1);
    assert_eq!(st.mode, Mode::Normal);
    assert_eq!(ev, vec![EditorEvent::CursorMoved(0, 1), EditorEvent::ModeChanged(Mode::Normal)]);
    let mut at_start = EditorState::from_text("abc");
    at_start.handle_command(EditorCommand::UpdateMode(Mode::Insert));
    at_start.handle_command(EditorCommand::UpdateMode(Mode::Normal));
    assert_eq!(at_start.cursor.index, 0);
}

#[test]
fn commands_in_wrong_mode_are_ignored() {
    let mut st = EditorState::from_text("abc");
    st.cursor.index = 1;
    assert!(st.handle_command(EditorCommand::InsertChar('x')).is_empty());
    assert!(st.handle_command(EditorCommand::DeleteChar).is_empty());
    assert!(st.handle_command(EditorCommand::InsertNewLine).is_empty());
    assert!(st.handle_command(EditorCommand::UpdateMode(Mode::Normal)).is_empty());
    assert_eq!(st.buffer.to_string(), "abc");
    assert_eq!(st.cursor.index, 1);
    st.handle_command(EditorCommand::UpdateMode(Mode::Insert));
    for cmd in [
        EditorCommand::Append,
        EditorCommand::AppendBelow,
        EditorCommand::AppendAbove,
        EditorCommand::AppendEnd,
        EditorCommand::AppendStart,
        EditorCommand::UpdateMode(Mode::Insert),
    ] {
        assert!(st.handle_command(cmd).is_empty());
    }
    assert_eq!(st.buffer.to_string(), "abc");
    assert_eq!(st.cursor.index, 1);
    assert_eq!(st.mode, Mode::Insert);
}

#[test]
fn quit_and_save_change_nothing() {
    let mut st = EditorState::from_text("abc");
    assert!(st.handle_command(EditorCommand::Quit).is_empty());
    assert!(st.handle_command(EditorCommand::SaveFile).is_empty());
    assert_eq!(st.buffer.to_string(), "abc");
}

#[test]
fn append_steps_forward() {
    let mut st = EditorState::from_text("e\u{301}bc");
    let ev = st.handle_command(EditorCommand::Append);
    assert_eq!(st.cursor.index, 2);
    assert_eq!(st.mode, Mode::Insert);
    assert_eq!(ev, vec![EditorEvent::CursorMoved(0, 2), EditorEvent::ModeChanged(Mode::Insert)]);
}

#[test]
fn append_start_and_end_of_line() {
    let mut st = EditorState::from_text("ab\ncd");
    st.cursor.index = 4;
    let ev = st.handle_command(EditorCommand::AppendStart);
    assert_eq!(st.cursor.index, 3);
    assert_eq!(ev, vec![EditorEvent::CursorMoved(1, 0), EditorEvent::ModeChanged(Mode::Insert)]);
    let mut end = EditorState::from_text("ab\ncd");
    end.cursor.index = 0;
    let ev = end.handle_command(EditorCommand::AppendEnd);
    assert_eq!(end.cursor.index, 2);
    assert_eq!(ev, vec![EditorEvent::CursorMoved(0, 2), EditorEvent::ModeChanged(Mode::Insert)]);
}

#[test]
fn append_above_opens_line_before() {
    let mut st = EditorState::from_text("ab\ncd");
    st.cursor.index = 4;
    let ev = st.handle_command(EditorCommand::AppendAbove);
    assert_eq!(st.buffer.to_string(), "ab\n\ncd");
    assert_eq!(st.cursor.index, 4);
    assert_eq!(ev, vec![EditorEvent::CursorMoved(2, 0), EditorEvent::ModeChanged(Mode::Insert)]);
}

#[test]
fn backspace_removes_whole_cluster() {
    let mut st = insert_mode("ae\u{301}", 3);
    let ev = st.handle_command(EditorCommand::Backspace);
    assert_eq!(st.buffer.to_string(), "a");
    assert_eq!(st.cursor.index, 1);
    assert_eq!(ev, vec![EditorEvent::BufferChanged]);
}

#[test]
fn enter_breaks_line() {
    let mut st = insert_mode("ab", 1);
    let ev = st.handle_command(EditorCommand::Enter);
    assert_eq!(st.buffer.to_string(), "a\nb");
    assert_eq!(st.cursor.index, 2);
    assert_eq!(ev, vec![EditorEvent::BufferChanged]);
    st.insert_newline();
    assert_eq!(st.buffer.to_string(), "a\n\nb");
    assert_eq!(st.cursor.index, 3);
}

#[test]
fn character_and_word_moves_report_position() {
    let mut st = EditorState::from_text("foo bar\nbaz");
    let ev = st.handle_command(EditorCommand::MoveCursor(Direction::Forward, Granularity::Word));
    assert_eq!(st.cursor.index, 3);
    assert_eq!(ev, vec![EditorEvent::CursorMoved(0, 3)]);
    st.handle_command(EditorCommand::MoveCursor(Direction::Forward, Granularity::Character));
    assert_eq!(st.cursor.index, 4);
    st.handle_command(EditorCommand::MoveCursor(Direction::Backward, Granularity::Word));
    assert_eq!(st.cursor.index, 3);
    st.handle_command(EditorCommand::MoveCursor(Direction::Backward, Granularity::Character));
    assert_eq!(st.cursor.index, 2);
}

#[test]
fn delete_selection_in_either_order() {
    let mut st = EditorState::from_text("abcd");
    st.selection.set(1, 3);
    st.delete_selection();
    assert_eq!(st.buffer.to_string(), "ad");
    assert_eq!(st.cursor.index, 1);
    assert!(!st.selection.is_active());
    let mut rev = EditorState::from_text("abcd");
    rev.selection.set(3, 1);
    rev.delete_selection();
    assert_eq!(rev.buffer.to_string(), "ad");
    let mut none = EditorState::from_text("abcd");
    none.delete_selection();
    assert_eq!(none.buffer.to_string(), "abcd");
}

#[test]
fn next_line_drags_selection_end_in_normal_mode() {
    let mut st = EditorState::from_text("ab\ncd\nef");
    st.cursor.index = 1;
    st.selection.set(1, 1);
    st.move_next_line();
    assert_eq!(st.cursor.index, 3);
    assert_eq!((st.selection.start, st.selection.end), (1, 3));
    st.update_selection();
    assert_eq!(st.selection.end, 3);
}

#[test]
fn coordinate_conversions() {
    let rope = Rope::from_str("ab\ncde\n");
    assert_eq!(coords_at_pos(&rope, 0), (0, 0));
    assert_eq!(coords_at_pos(&rope, 2), (0, 2));
    assert_eq!(coords_at_pos(&rope, 3), (1, 0));
    assert_eq!(coords_at_pos(&rope, 5), (1, 2));
    assert_eq!(coords_at_pos(&rope, 7), (2, 0));
    assert_eq!(pos_at_coords(&rope, (1, 2)), 5);
    assert_eq!(pos_at_coords(&rope, (1, 40)), 7);
    assert_eq!(pos_at_coords(&rope, (2, 0)), 7);
    let marks = Rope::from_str("e\u{301}x");
    assert_eq!(pos_at_coords(&marks, (0, 1)), 2);
    assert_eq!(move_vertically(&rope, Direction::Forward, 1), 4);
    assert_eq!(move_vertically(&rope, Direction::Backward, 6), 2);
}
