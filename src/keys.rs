//! Which command a key press asks for, in each mode.
use vstd::prelude::*;

use crate::commands::EditorCommand;
use crate::config::Mode;
use crate::state::{Direction, Granularity};

verus! {

/// A key, as far as the editor tells keys apart.
#[derive(Clone, Copy, Debug, PartialEq, Eq, Structural)]
pub enum Key {
    Char(char),
    Esc,
    Enter,
    Backspace,
    Left,
    Right,
    Up,
    Down,
    Other,
}

/// The modifiers held with a key.
#[derive(Clone, Copy, Debug, PartialEq, Eq, Structural)]
pub enum Modifiers {
    Plain,
    Shift,
    Other,
}

/// The command for a key press. In Normal mode: `q` quits; `i` enters
/// Insert mode; `a`, `A`, `I`, `o`, `O` append after the cursor, at the end
/// or start of the line, or on a new line below or above; `h` `j` `k` `l`
/// and the arrows move. In Insert mode, whatever the modifiers: Escape
/// returns to Normal mode, a char is inserted, Backspace deletes, Enter
/// breaks the line, and the arrows move as in Normal mode.
pub open spec fn key_command(modifiers: Modifiers, key: Key, mode: Mode) -> Option<EditorCommand> {
    match mode {
        Mode::Normal => match (modifiers, key) {
            (Modifiers::Plain, Key::Char('q')) => Some(EditorCommand::Quit),
            (Modifiers::Plain, Key::Char('i')) => Some(EditorCommand::UpdateMode(Mode::Insert)),
            (Modifiers::Shift, Key::Char('I')) => Some(EditorCommand::AppendStart),
            (Modifiers::Plain, Key::Char('a')) => Some(EditorCommand::Append),
            (Modifiers::Shift, Key::Char('A')) => Some(EditorCommand::AppendEnd),
            (Modifiers::Plain, Key::Char('o')) => Some(EditorCommand::AppendBelow),
            (Modifiers::Shift, Key::Char('O')) => Some(EditorCommand::AppendAbove),
            (Modifiers::Plain, Key::Char('h')) | (Modifiers::Plain, Key::Left) => Some(
                EditorCommand::MoveCursor(Direction::Backward, Granularity::Character),
            ),
            (Modifiers::Plain, Key::Char('l')) | (Modifiers::Plain, Key::Right) => Some(
                EditorCommand::MoveCursor(Direction::Forward, Granularity::Character),
            ),
            (Modifiers::Plain, Key::Char('k')) | (Modifiers::Plain, Key::Up) => Some(
                EditorCommand::MoveCursor(Direction::Backward, Granularity::Line),
            ),
            (Modifiers::Plain, Key::Char('j')) | (Modifiers::Plain, Key::Down) => Some(
                EditorCommand::MoveCursor(Direction::Forward, Granularity::Line),
            ),
            _ => None,
        },
        Mode::Insert => match key {
            Key::Esc => Some(EditorCommand::UpdateMode(Mode::Normal)),
            Key::Char(c) => Some(EditorCommand::InsertChar(c)),
            Key::Backspace => Some(EditorCommand::Backspace),
            Key::Enter => Some(EditorCommand::Enter),
            Key::Left => Some(EditorCommand::MoveCursor(Direction::Backward, Granularity::Character)),
            Key::Right => Some(EditorCommand::MoveCursor(Direction::Forward, Granularity::Character)),
            Key::Up => Some(EditorCommand::MoveCursor(Direction::Backward, Granularity::Line)),
            Key::Down => Some(EditorCommand::MoveCursor(Direction::Forward, Granularity::Line)),
            Key::Other => None,
        },
    }
}

/// The command that a key press asks for in `mode`, if any.
pub fn key_event_handler(key: (Modifiers, Key), mode: &Mode) -> (c: Option<EditorCommand>)
    ensures
        c == key_command(key.0, key.1, *mode),
{
    let (modifiers, code) = key;
    match mode {
        Mode::Normal => match (modifiers, code) {
            (Modifiers::Plain, Key::Char('q')) => Some(EditorCommand::Quit),
            (Modifiers::Plain, Key::Char('i')) => Some(EditorCommand::UpdateMode(Mode::Insert)),
            (Modifiers::Shift, Key::Char('I')) => Some(EditorCommand::AppendStart),
            (Modifiers::Plain, Key::Char('a')) => Some(EditorCommand::Append),
            (Modifiers::Shift, Key::Char('A')) => Some(EditorCommand::AppendEnd),
            (Modifiers::Plain, Key::Char('o')) => Some(EditorCommand::AppendBelow),
            (Modifiers::Shift, Key::Char('O')) => Some(EditorCommand::AppendAbove),
            (Modifiers::Plain, Key::Char('h')) | (Modifiers::Plain, Key::Left) => Some(
                EditorCommand::MoveCursor(Direction::Backward, Granularity::Character),
            ),
            (Modifiers::Plain, Key::Char('l')) | (Modifiers::Plain, Key::Right) => Some(
                EditorCommand::MoveCursor(Direction::Forward, Granularity::Character),
            ),
            (Modifiers::Plain, Key::Char('k')) | (Modifiers::Plain, Key::Up) => Some(
                EditorCommand::MoveCursor(Direction::Backward, Granularity::Line),
            ),
            (Modifiers::Plain, Key::Char('j')) | (Modifiers::Plain, Key::Down) => Some(
                EditorCommand::MoveCursor(Direction::Forward, Granularity::Line),
            ),
            _ => None,
        },
        Mode::Insert => match code {
            Key::Esc => Some(EditorCommand::UpdateMode(Mode::Normal)),
            Key::Char(c) => Some(EditorCommand::InsertChar(c)),
            Key::Backspace => Some(EditorCommand::Backspace),
            Key::Enter => Some(EditorCommand::Enter),
            Key::Left => Some(EditorCommand::MoveCursor(Direction::Backward, Granularity::Character)),
            Key::Right => Some(EditorCommand::MoveCursor(Direction::Forward, Granularity::Character)),
            Key::Up => Some(EditorCommand::MoveCursor(Direction::Backward, Granularity::Line)),
            Key::Down => Some(EditorCommand::MoveCursor(Direction::Forward, Granularity::Line)),
            Key::Other => None,
        },
    }
}

} // verus!
