use athena::commands::EditorCommand;
use athena::config::{
    Config, CursorShape, GutterElement, GuttersConfig, LineNumbersConfig, Mode, ModeNames,
    StatusBarConfig, StatusBarItem,
};
use athena::document::Document;
use athena::keys::{key_event_handler, Key, Modifiers};
use athena::state::{Direction, EditorEvent, EditorState, Granularity};
use athena::status_bar::{StatusBar, StatusItem, StatusItemKind};
use athena::theme::Rgb;
use athena::view::ViewState;

#[test]
fn document_dirty_tracking() {
    let st = EditorState::from_text("abc");
    let mut doc = Document::new(&GuttersConfig::default());
    assert!(doc.is_dirty());
    doc.mark_clean();
    assert!(!doc.is_dirty());
    doc.handle_event(&EditorEvent::ViewportChanged, &st);
    assert!(!doc.is_dirty());
    doc.handle_event(&EditorEvent::Char('x'), &st);
    assert!(!doc.is_dirty());
    doc.handle_event(&EditorEvent::CursorMoved(0, 1), &st);
    assert!(doc.is_dirty());
    doc.mark_clean();
    doc.handle_event(&EditorEvent::BufferChanged, &st);
    assert!(doc.is_dirty());
    doc.mark_clean();
    doc.handle_event(&EditorEvent::ModeChanged(Mode::Insert), &st);
    assert!(doc.is_dirty());
}

#[test]
fn gutter_width_counts_digits() {
    let doc = Document::new(&GuttersConfig::default());
    let text = "x\n".repeat(11);
    let st = EditorState::from_text(&text);
    assert_eq!(doc.dent(&st), 4);
    let small = EditorState::from_text("x");
    assert_eq!(doc.dent(&small), 3);
    let bare = Document::new(&GuttersConfig { layout: vec![], line_numbers: None });
    assert_eq!(bare.dent(&st), 0);
}

#[test]
fn tab_width_expansion() {
    let doc = Document::new(&GuttersConfig::default());
    assert_eq!(doc.width("a\tb", 4), 6);
    assert_eq!(doc.width("\t\t", 2), 4);
    assert_eq!(doc.width("abc", 8), 3);
    assert_eq!(doc.width("", 4), 0);
    assert_eq!(doc.width("\u{e9}\t", 4), 5);
}

#[test]
fn line_numbers_absolute_and_relative() {
    let doc = Document::new(&GuttersConfig::default());
    let mut st = EditorState::from_text("a\nb\nc\nd");
    st.cursor.index = 4;
    let relative = LineNumbersConfig { relative: true, min_width: 3 };
    let absolute = LineNumbersConfig { relative: false, min_width: 3 };
    assert_eq!(doc.get_line_number_display(&st, 2, &relative), "3");
    assert_eq!(doc.get_line_number_display(&st, 0, &relative), "2");
    assert_eq!(doc.get_line_number_display(&st, 3, &relative), "1");
    assert_eq!(doc.get_line_number_display(&st, 4, &relative), "~");
    assert_eq!(doc.get_line_number_display(&st, 0, &absolute), "1");
    assert_eq!(doc.get_line_number_display(&st, 3, &absolute), "4");
}

#[test]
fn gutter_text_pads_numbers() {
    let doc = Document::new(&GuttersConfig::default());
    let st = EditorState::from_text("a\nb");
    assert_eq!(doc.gutter(&st, 0), " 1  ");
    assert_eq!(doc.gutter(&st, 1), " 1  ");
    assert_eq!(doc.gutter(&st, 5), " ~  ");
    let wide = Document::new(&GuttersConfig {
        layout: vec![GutterElement::LineNumbers, GutterElement::Spacer],
        line_numbers: Some(LineNumbersConfig { relative: false, min_width: 9 }),
    });
    assert_eq!(wide.gutter(&st, 1), "2    ");
    let no_numbers = Document::new(&GuttersConfig {
        layout: vec![GutterElement::Spacer, GutterElement::LineNumbers],
        line_numbers: None,
    });
    assert_eq!(no_numbers.gutter(&st, 0), " ");
}

#[test]
fn content_padding_fills_row() {
    let doc = Document::new(&GuttersConfig::default());
    assert_eq!(doc.content_padding(Some("ab\tc"), 20), 12);
    assert_eq!(doc.content_padding(None, 20), 19);
    assert_eq!(doc.content_padding(Some("abcdef"), 3), 0);
}

#[test]
fn status_bar_sections() {
    let mut st = EditorState::from_text("ab\ncd");
    st.cursor.index = 4;
    let config = StatusBarConfig::default();
    let bar = StatusBar::new(&config);
    assert!(bar.is_dirty());
    assert_eq!(bar.build_section(&config.left, &st), "Normal");
    assert_eq!(bar.build_section(&config.center, &st), "");
    assert_eq!(bar.build_section(&config.right, &st), "1:1 | 2 | rust");
    let all = vec![
        StatusBarItem::FileName,
        StatusBarItem::FileEncoding,
        StatusBarItem::FileType,
        StatusBarItem::Mode,
    ];
    st.handle_command(EditorCommand::UpdateMode(Mode::Insert));
    assert_eq!(bar.build_section(&all, &st), "test.rs | UTF-8 |  | Insert");
}

#[test]
fn status_bar_layout() {
    let bar = StatusBar::new(&StatusBarConfig::default());
    let s = |v: &[&str]| v.iter().map(|x| x.to_string()).collect::<Vec<String>>();
    assert_eq!(bar.format_sections(s(&["ab", "c", "de"]), 11), "ab   c   de");
    assert_eq!(bar.format_sections(s(&["ab", "c", "de"]), 10), "ab  c   de");
    assert_eq!(bar.format_sections(s(&["abcdef", "gh", "ijkl"]), 6), "abghij");
    assert_eq!(bar.format_sections(s(&["abcdef", "g", "ijkl"]), 7), "abg ijk");
    assert_eq!(bar.format_sections(s(&["a"]), 4), "    ");
    assert_eq!(bar.format_sections(s(&["a", "b", "c", "d"]), 10), "          ");
}

#[test]
fn status_bar_whole_row() {
    let st = EditorState::from_text("ab");
    let bar = StatusBar::new(&StatusBarConfig::default());
    assert_eq!(bar.build(&st, 20), "Normal0:0 | 1 | rust");
    assert_eq!(bar.build(&st, 25), "Normal     0:0 | 1 | rust");
    assert_eq!(bar.build(&st, 9), "Nor   0:0");
}

#[test]
fn status_bar_dirty_tracking() {
    let st = EditorState::from_text("ab");
    let mut bar = StatusBar::new(&StatusBarConfig::default());
    bar.mark_clean();
    bar.handle_event(&EditorEvent::ViewportChanged, &st);
    assert!(!bar.is_dirty());
    bar.handle_event(&EditorEvent::ModeChanged(Mode::Normal), &st);
    assert!(bar.is_dirty());
}

#[test]
fn status_item_texts() {
    assert_eq!(StatusItemKind::Mode(Mode::Normal).text(), "NOR");
    assert_eq!(StatusItemKind::Mode(Mode::Insert).text(), "INS");
    assert_eq!(StatusItemKind::CursorPosition(3, 14).text(), "3:14");
    assert_eq!(StatusItemKind::LineCount(120).text(), "120");
    assert_eq!(StatusItem::new(StatusItemKind::Language("rust".to_string())).text(), "rust");
    assert_eq!(StatusItemKind::FileName("a.rs".to_string()).text(), "a.rs");
    assert_eq!(StatusItemKind::FileEncoding("UTF-8".to_string()).text(), "UTF-8");
}

#[test]
fn keys_map_to_commands() {
    let normal = Mode::Normal;
    let insert = Mode::Insert;
    assert_eq!(key_event_handler((Modifiers::Plain, Key::Char('q')), &normal), Some(EditorCommand::Quit));
    assert_eq!(
        key_event_handler((Modifiers::Plain, Key::Char('i')), &normal),
        Some(EditorCommand::UpdateMode(Mode::Insert))
    );
    assert_eq!(key_event_handler((Modifiers::Shift, Key::Char('I')), &normal), Some(EditorCommand::AppendStart));
    assert_eq!(key_event_handler((Modifiers::Shift, Key::Char('O')), &normal), Some(EditorCommand::AppendAbove));
    assert_eq!(key_event_handler((Modifiers::Plain, Key::Char('o')), &normal), Some(EditorCommand::AppendBelow));
    assert_eq!(
        key_event_handler((Modifiers::Plain, Key::Left), &normal),
        Some(EditorCommand::MoveCursor(Direction::Backward, Granularity::Character))
    );
    assert_eq!(
        key_event_handler((Modifiers::Plain, Key::Char('j')), &normal),
        Some(EditorCommand::MoveCursor(Direction::Forward, Granularity::Line))
    );
    assert_eq!(key_event_handler((Modifiers::Plain, Key::Char('x')), &normal), None);
    assert_eq!(key_event_handler((Modifiers::Shift, Key::Char('q')), &normal), None);
    assert_eq!(
        key_event_handler((Modifiers::Plain, Key::Esc), &insert),
        Some(EditorCommand::UpdateMode(Mode::Normal))
    );
    assert_eq!(key_event_handler((Modifiers::Shift, Key::Char('Q')), &insert), Some(EditorCommand::InsertChar('Q')));
    assert_eq!(key_event_handler((Modifiers::Plain, Key::Backspace), &insert), Some(EditorCommand::Backspace));
    assert_eq!(key_event_handler((Modifiers::Plain, Key::Enter), &insert), Some(EditorCommand::Enter));
    assert_eq!(
        key_event_handler((Modifiers::Plain, Key::Right), &insert),
        Some(EditorCommand::MoveCursor(Direction::Forward, Granularity::Character))
    );
    assert_eq!(key_event_handler((Modifiers::Plain, Key::Other), &insert), None);
}

#[test]
fn default_configuration() {
    let c = Config::default();
    assert_eq!(c.editor.gutters.layout, vec![GutterElement::Spacer, GutterElement::LineNumbers]);
    assert_eq!(c.editor.gutters.line_numbers, Some(LineNumbersConfig { relative: true, min_width: 3 }));
    assert_eq!(c.editor.status_bar.left, vec![StatusBarItem::Mode]);
    assert!(c.editor.status_bar.center.is_empty());
    assert_eq!(
        c.editor.status_bar.right,
        vec![StatusBarItem::CursorPosition, StatusBarItem::LineCount, StatusBarItem::Language]
    );
    assert_eq!(c.editor.cursor.normal, CursorShape::Block);
    assert_eq!(c.editor.cursor.insert, CursorShape::Bar);
    assert!(c.keymap.normal.is_empty());
    let names = ModeNames::default();
    assert_eq!((names.normal.as_str(), names.insert.as_str()), ("Normal", "Insert"));
    let rgb = Rgb(41, 41, 61);
    assert_eq!((rgb.0, rgb.1, rgb.2), (41, 41, 61));
}
