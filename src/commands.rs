//! Commands, and applying one to the editor state.
use vstd::prelude::*;

use crate::config::Mode;
use crate::graphemes::prev_boundary;
use crate::state::{coords_at_pos, coords_of, Direction, EditorEvent, EditorState, Granularity};

verus! {

/// What the user asks the editor to do.
#[derive(Clone, Copy, Debug, PartialEq, Eq, Structural)]
pub enum EditorCommand {
    Quit,
    InsertChar(char),
    Backspace,
    Enter,
    UpdateMode(Mode),
    Append,
    AppendBelow,
    AppendAbove,
    AppendEnd,
    AppendStart,
    InsertNewLine,
    DeleteChar,
    MoveCursor(Direction, Granularity),
    SaveFile,
}

/// The event that reports where the cursor of `st` is.
pub open spec fn cursor_moved(st: EditorState) -> EditorEvent {
    EditorEvent::CursorMoved(
        coords_of(st.text(), st.cursor.index as int).0 as usize,
        coords_of(st.text(), st.cursor.index as int).1 as usize,
    )
}

/// How applying `command` to `old` gives `new`.
pub open spec fn command_post(old: EditorState, new: EditorState, command: EditorCommand) -> bool {
    match command {
        EditorCommand::InsertChar(c) => EditorState::insert_char_post(old, new, c),
        EditorCommand::InsertNewLine | EditorCommand::Enter => EditorState::insert_char_post(
            old,
            new,
            '\n',
        ),
        EditorCommand::DeleteChar | EditorCommand::Backspace => EditorState::backspace_post(
            old,
            new,
        ),
        EditorCommand::MoveCursor(d, g) => EditorState::move_cursor_post(old, new, d, g),
        EditorCommand::UpdateMode(m) => EditorState::update_mode_post(old, new, m),
        EditorCommand::Append => EditorState::append_post(old, new),
        EditorCommand::AppendBelow => EditorState::insert_newline_below_post(old, new),
        EditorCommand::AppendAbove => EditorState::insert_newline_above_post(old, new),
        EditorCommand::AppendEnd => EditorState::append_end_of_line_post(old, new),
        EditorCommand::AppendStart => EditorState::insert_start_of_line_post(old, new),
        EditorCommand::Quit | EditorCommand::SaveFile => new == old,
    }
}

/// The events that applying `command` to `old`, giving `new`, reports:
/// nothing for a command that did not apply; `BufferChanged` for an edit in
/// Insert mode; where the cursor went for a movement; and for a mode change,
/// where the cursor went (unless it stayed put on entering Insert mode),
/// then the new mode.
pub open spec fn command_events(
    old: EditorState,
    new: EditorState,
    command: EditorCommand,
) -> Seq<EditorEvent> {
    match command {
        EditorCommand::InsertChar(_) | EditorCommand::InsertNewLine | EditorCommand::Enter => {
            if old.mode == Mode::Insert {
                seq![EditorEvent::BufferChanged]
            } else {
                seq![]
            }
        },
        EditorCommand::DeleteChar | EditorCommand::Backspace => {
            if old.mode == Mode::Insert && old.cursor.index > 0 {
                seq![EditorEvent::BufferChanged]
            } else {
                seq![]
            }
        },
        EditorCommand::MoveCursor(_, _) => seq![cursor_moved(new)],
        EditorCommand::UpdateMode(m) => {
            if m == old.mode {
                seq![]
            } else if m == Mode::Insert {
                seq![EditorEvent::ModeChanged(Mode::Insert)]
            } else {
                seq![cursor_moved(new), EditorEvent::ModeChanged(Mode::Normal)]
            }
        },
        EditorCommand::Append
        | EditorCommand::AppendBelow
        | EditorCommand::AppendAbove
        | EditorCommand::AppendEnd
        | EditorCommand::AppendStart => {
            if old.mode == Mode::Normal {
                seq![cursor_moved(new), EditorEvent::ModeChanged(Mode::Insert)]
            } else {
                seq![]
            }
        },
        EditorCommand::Quit | EditorCommand::SaveFile => seq![],
    }
}

impl EditorState {
    /// The cursor's position as an event.
    fn cursor_event(&self) -> (e: EditorEvent)
        requires
            self.wf(),
        ensures
            e == cursor_moved(*self),
    {
        let (line, col) = coords_at_pos(&self.buffer, self.cursor.index);
        EditorEvent::CursorMoved(line, col)
    }

    /// Apply one command and return, in order, the events it caused. A
    /// command given in a mode where it does not apply changes nothing and
    /// reports nothing. Quitting and saving are left to the caller.
    pub fn handle_command(&mut self, command: EditorCommand) -> (events: Vec<EditorEvent>)
        requires
            old(self).wf(),
        ensures
            final(self).wf(),
            command_post(*old(self), *final(self), command),
            events@ == command_events(*old(self), *final(self), command),
    {
        let mut events: Vec<EditorEvent> = Vec::new();
        let was = self.mode;
        match command {
            EditorCommand::InsertChar(c) => {
                self.insert_char(c);
                if was == Mode::Insert {
                    events.push(EditorEvent::BufferChanged);
                }
            },
            EditorCommand::InsertNewLine | EditorCommand::Enter => {
                self.insert_newline();
                if was == Mode::Insert {
                    events.push(EditorEvent::BufferChanged);
                }
            },
            EditorCommand::DeleteChar | EditorCommand::Backspace => {
                let applies = was == Mode::Insert && self.cursor.index > 0;
                self.backspace();
                if applies {
                    events.push(EditorEvent::BufferChanged);
                }
            },
            EditorCommand::MoveCursor(d, g) => {
                self.move_cursor(d, g);
                events.push(self.cursor_event());
            },
            EditorCommand::UpdateMode(m) => {
                self.update_mode(m);
                if m != was {
                    if m == Mode::Normal {
                        events.push(self.cursor_event());
                    }
                    events.push(EditorEvent::ModeChanged(m));
                }
            },
            EditorCommand::Append
            | EditorCommand::AppendBelow
            | EditorCommand::AppendAbove
            | EditorCommand::AppendEnd
            | EditorCommand::AppendStart => {
                match command {
                    EditorCommand::Append => self.append(),
                    EditorCommand::AppendBelow => self.insert_newline_below(),
                    EditorCommand::AppendAbove => self.insert_newline_above(),
                    EditorCommand::AppendEnd => self.append_end_of_line(),
                    _ => self.insert_start_of_line(),
                }
                if was == Mode::Normal {
                    events.push(self.cursor_event());
                    events.push(EditorEvent::ModeChanged(Mode::Insert));
                }
            },
            EditorCommand::Quit | EditorCommand::SaveFile => {},
        }
        proof {
            assert(events@ =~= command_events(*old(self), *self, command));
        }
        events
    }
}

/// Entering Insert mode and leaving it straight away leaves the text as it
/// was and the cursor one grapheme back from where it started (0 stays 0).
pub proof fn lemma_insert_then_normal(s0: EditorState, s1: EditorState, s2: EditorState)
    requires
        s0.wf(),
        command_post(s0, s1, EditorCommand::UpdateMode(Mode::Insert)),
        command_post(s1, s2, EditorCommand::UpdateMode(Mode::Normal)),
    ensures
        s2.text() == s0.text(),
        s2.cursor.index == prev_boundary(s0.text(), s0.cursor.index as int),
        s2.mode == Mode::Normal,
{
}

} // verus!
